//! The AST: a closed hierarchy of statement and expression nodes. The
//! statement/expression distinction is encoded in the type system as two
//! sum types, so a node can only be plugged into a slot of its own role;
//! the remaining construction invariants (which token kinds may carry an
//! operator or a name) are preconditions of the constructors, discharged
//! statically in the parser.

use vstd::prelude::*;
use crate::parser::ast_builder::FullToken;
use crate::parser::token_kind::TOK_IDENTIFIER;
use crate::parser::token_kind::TOK_MINUS_MINUS;
use crate::parser::token_kind::TOK_PLUS_PLUS;

verus! {

/// The kind tag of a node, for diagnostics and dispatch.
#[derive(Debug, Clone, Copy, PartialEq, Eq, Structural)]
pub enum AstKind {
    Program,
    BlockStmt,
    VarStmt,
    EmptyStmt,
    IfStmt,
    ExprStmt,
    PropertyExpr,
    ElementExpr,
    CallExpr,
    ConstructExpr,
    PostfixOpExpr,
    UnaryOpExpr,
    BinaryOpExpr,
    CondExpr,
    AssignExpr,
    CommaExpr,
    AtomicExpr,
}

/// A statement node.
#[derive(Debug)]
pub enum StmtNode {
    Block(BlockStmtNode),
    Var(VarStmtNode),
    Empty(EmptyStmtNode),
    If(Box<IfStmtNode>),
    Expr(ExprStmtNode),
}

/// An expression node.
#[derive(Debug)]
pub enum ExprNode {
    Atomic(AtomicExprNode),
    Unary(Box<UnaryOpExprNode>),
    Binary(Box<BinaryOpExprNode>),
    Cond(Box<CondExprNode>),
    Assign(Box<AssignExprNode>),
    Comma(Box<CommaExprNode>),
    Postfix(Box<PostfixOpExprNode>),
    Construct(Box<ConstructExprNode>),
    Property(Box<PropertyExprNode>),
    Element(Box<ElementExprNode>),
    Call(Box<CallExprNode>),
}

/// The root of a parse: the ordered sequence of top-level statements,
/// in source order.
#[derive(Debug)]
pub struct ProgramNode {
    pub source_elements: Vec<StmtNode>,
}

/// A block statement. Parsing of nested statements inside a block is
/// not implemented yet; the node is a placeholder.
#[derive(Debug)]
pub struct BlockStmtNode {}

/// A `var` statement: an ordered sequence of declarations.
#[derive(Debug)]
pub struct VarStmtNode {
    pub var_decls: Vec<VarDecl>,
}

/// One declaration in a `var` statement: a name token and an optional
/// initializer expression.
#[derive(Debug)]
pub struct VarDecl {
    pub name: FullToken,
    pub init_expr: Option<ExprNode>,
}

/// A bare `;`.
#[derive(Debug)]
pub struct EmptyStmtNode {}

/// An `if` statement with an optional `else` branch.
#[derive(Debug)]
pub struct IfStmtNode {
    pub cond_expr: ExprNode,
    pub if_true_stmt: StmtNode,
    pub if_false_stmt: Option<StmtNode>,
}

/// A statement consisting of one expression.
#[derive(Debug)]
pub struct ExprStmtNode {
    pub expr: ExprNode,
}

/// A binary-operator expression.
#[derive(Debug)]
pub struct BinaryOpExprNode {
    pub binary_op: FullToken,
    pub left_expr: ExprNode,
    pub right_expr: ExprNode,
}

/// A `?:` conditional expression.
#[derive(Debug)]
pub struct CondExprNode {
    pub cond_expr: ExprNode,
    pub if_expr: ExprNode,
    pub else_expr: ExprNode,
}

/// An assignment expression; the operator token must be one of the
/// assignment kinds.
#[derive(Debug)]
pub struct AssignExprNode {
    pub assign_op: FullToken,
    pub left_expr: ExprNode,
    pub right_expr: ExprNode,
}

/// A comma expression.
#[derive(Debug)]
pub struct CommaExprNode {
    pub left_expr: ExprNode,
    pub right_expr: ExprNode,
}

/// A postfix `++`/`--` expression.
#[derive(Debug)]
pub struct PostfixOpExprNode {
    pub postfix_op: FullToken,
    pub sub_expr: ExprNode,
}

/// A unary-operator expression.
#[derive(Debug)]
pub struct UnaryOpExprNode {
    pub unary_op: FullToken,
    pub sub_expr: ExprNode,
}

/// A `new` expression with an optional argument list.
#[derive(Debug)]
pub struct ConstructExprNode {
    pub sub_expr: ExprNode,
    pub arguments: Vec<ExprNode>,
    pub has_arguments: bool,
}

/// A `.name` property access.
#[derive(Debug)]
pub struct PropertyExprNode {
    pub target_expr: ExprNode,
    pub property_name: FullToken,
}

/// An `[expr]` element access.
#[derive(Debug)]
pub struct ElementExprNode {
    pub target_expr: ExprNode,
    pub element_expr: ExprNode,
}

/// A call expression with an argument list.
#[derive(Debug)]
pub struct CallExprNode {
    pub callee_expr: ExprNode,
    pub arguments: Vec<ExprNode>,
}



/// The mathematical mirror of the AST, used by the parser's
/// specification: sequences in place of vectors, otherwise the same
/// shape. The `deep_*` functions project the executable nodes onto it.
#[verifier::ext_equal]
pub enum SpecStmt {
    Block,
    Var(Seq<SpecVarDecl>),
    Empty,
    If(SpecExpr, Box<SpecStmt>, Option<Box<SpecStmt>>),
    Expr(SpecExpr),
}

#[verifier::ext_equal]
pub enum SpecExpr {
    Atomic(FullToken),
    Unary(FullToken, Box<SpecExpr>),
    Binary(FullToken, Box<SpecExpr>, Box<SpecExpr>),
    Cond(Box<SpecExpr>, Box<SpecExpr>, Box<SpecExpr>),
    Assign(FullToken, Box<SpecExpr>, Box<SpecExpr>),
    Comma(Box<SpecExpr>, Box<SpecExpr>),
    Postfix(FullToken, Box<SpecExpr>),
    Construct(Box<SpecExpr>, Seq<SpecExpr>, bool),
    Property(Box<SpecExpr>, FullToken),
    Element(Box<SpecExpr>, Box<SpecExpr>),
    Call(Box<SpecExpr>, Seq<SpecExpr>),
}

#[verifier::ext_equal]
pub struct SpecVarDecl {
    pub name: FullToken,
    pub init: Option<SpecExpr>,
}

/// The mirror of an expression tree.
pub open spec fn deep_expr(e: ExprNode) -> SpecExpr
    decreases e,
{
    match e {
        ExprNode::Atomic(n) => SpecExpr::Atomic(n.name),
        ExprNode::Unary(n) => SpecExpr::Unary(n.unary_op, Box::new(deep_expr(n.sub_expr))),
        ExprNode::Binary(n) => SpecExpr::Binary(
            n.binary_op,
            Box::new(deep_expr(n.left_expr)),
            Box::new(deep_expr(n.right_expr)),
        ),
        ExprNode::Cond(n) => SpecExpr::Cond(
            Box::new(deep_expr(n.cond_expr)),
            Box::new(deep_expr(n.if_expr)),
            Box::new(deep_expr(n.else_expr)),
        ),
        ExprNode::Assign(n) => SpecExpr::Assign(
            n.assign_op,
            Box::new(deep_expr(n.left_expr)),
            Box::new(deep_expr(n.right_expr)),
        ),
        ExprNode::Comma(n) => SpecExpr::Comma(
            Box::new(deep_expr(n.left_expr)),
            Box::new(deep_expr(n.right_expr)),
        ),
        ExprNode::Postfix(n) => SpecExpr::Postfix(n.postfix_op, Box::new(deep_expr(n.sub_expr))),
        ExprNode::Construct(n) => SpecExpr::Construct(
            Box::new(deep_expr(n.sub_expr)),
            Seq::new(
                n.arguments@.len(),
                |i: int|
                    if 0 <= i < n.arguments@.len() {
                        deep_expr(n.arguments@[i])
                    } else {
                        arbitrary()
                    },
            ),
            n.has_arguments,
        ),
        ExprNode::Property(n) => SpecExpr::Property(
            Box::new(deep_expr(n.target_expr)),
            n.property_name,
        ),
        ExprNode::Element(n) => SpecExpr::Element(
            Box::new(deep_expr(n.target_expr)),
            Box::new(deep_expr(n.element_expr)),
        ),
        ExprNode::Call(n) => SpecExpr::Call(
            Box::new(deep_expr(n.callee_expr)),
            Seq::new(
                n.arguments@.len(),
                |i: int|
                    if 0 <= i < n.arguments@.len() {
                        deep_expr(n.arguments@[i])
                    } else {
                        arbitrary()
                    },
            ),
        ),
    }
}

/// The mirror of an argument vector.
pub open spec fn deep_exprs(s: Seq<ExprNode>) -> Seq<SpecExpr> {
    Seq::new(s.len(), |i: int| if 0 <= i < s.len() {
        deep_expr(s[i])
    } else {
        arbitrary()
    })
}

/// The projection of a construct or call node renders its argument
/// vector through `deep_exprs`.
pub proof fn lemma_deep_args(e: ExprNode)
    ensures
        e matches ExprNode::Construct(n) ==> deep_expr(e) == SpecExpr::Construct(
            Box::new(deep_expr(n.sub_expr)),
            deep_exprs(n.arguments@),
            n.has_arguments,
        ),
        e matches ExprNode::Call(n) ==> deep_expr(e) == SpecExpr::Call(
            Box::new(deep_expr(n.callee_expr)),
            deep_exprs(n.arguments@),
        ),
{
    match e {
        ExprNode::Construct(n) => {
            let rendered = deep_expr(e)->Construct_1;
            assert forall|i: int| 0 <= i < n.arguments@.len() implies rendered[i] == deep_exprs(
                n.arguments@,
            )[i] by {}
            assert(rendered =~= deep_exprs(n.arguments@));
        },
        ExprNode::Call(n) => {
            let rendered = deep_expr(e)->Call_1;
            assert forall|i: int| 0 <= i < n.arguments@.len() implies rendered[i] == deep_exprs(
                n.arguments@,
            )[i] by {}
            assert(rendered =~= deep_exprs(n.arguments@));
        },
        _ => {},
    }
}

/// Prepending the empty sequence changes nothing.
pub broadcast proof fn lemma_empty_concat(s: Seq<SpecExpr>)
    ensures
        #[trigger] (Seq::<SpecExpr>::empty() + s) == s,
{
    assert(Seq::<SpecExpr>::empty() + s =~= s);
}

/// An empty argument vector projects to the empty sequence.
pub proof fn lemma_deep_exprs_empty(s: Seq<ExprNode>)
    requires
        s.len() == 0,
    ensures
        deep_exprs(s) == Seq::<SpecExpr>::empty(),
{
    assert(deep_exprs(s) =~= Seq::<SpecExpr>::empty());
}

/// The mirror of one declaration.
pub open spec fn deep_decl(d: VarDecl) -> SpecVarDecl {
    SpecVarDecl {
        name: d.name,
        init: match d.init_expr {
            Some(e) => Some(deep_expr(e)),
            None => None,
        },
    }
}

/// The mirror of a declaration vector.
pub open spec fn deep_decls(s: Seq<VarDecl>) -> Seq<SpecVarDecl> {
    Seq::new(s.len(), |i: int| deep_decl(s[i]))
}

/// The mirror of a statement tree.
pub open spec fn deep_stmt(st: StmtNode) -> SpecStmt
    decreases st,
{
    match st {
        StmtNode::Block(_) => SpecStmt::Block,
        StmtNode::Var(n) => SpecStmt::Var(deep_decls(n.var_decls@)),
        StmtNode::Empty(_) => SpecStmt::Empty,
        StmtNode::If(n) => SpecStmt::If(
            deep_expr(n.cond_expr),
            Box::new(deep_stmt(n.if_true_stmt)),
            match n.if_false_stmt {
                Some(f) => Some(Box::new(deep_stmt(f))),
                None => None,
            },
        ),
        StmtNode::Expr(n) => SpecStmt::Expr(deep_expr(n.expr)),
    }
}

/// The mirror of a statement vector.
pub open spec fn deep_stmts(s: Seq<StmtNode>) -> Seq<SpecStmt> {
    Seq::new(s.len(), |i: int| deep_stmt(s[i]))
}

/// Well-formedness of an expression tree: every operator or name token
/// deep in the tree has a kind its slot allows.
pub open spec fn wf_expr(e: ExprNode) -> bool
    decreases e,
{
    match e {
        ExprNode::Atomic(n) => n.name.spec_kind().spec_is_atomic_expr(),
        ExprNode::Unary(n) => n.unary_op.spec_kind().spec_is_unary_op() && wf_expr(n.sub_expr),
        ExprNode::Binary(n) => wf_expr(n.left_expr) && wf_expr(n.right_expr),
        ExprNode::Cond(n) => wf_expr(n.cond_expr) && wf_expr(n.if_expr) && wf_expr(n.else_expr),
        ExprNode::Assign(n) => n.assign_op.spec_kind().spec_is_assignment_op() && wf_expr(
            n.left_expr,
        ) && wf_expr(n.right_expr),
        ExprNode::Comma(n) => wf_expr(n.left_expr) && wf_expr(n.right_expr),
        ExprNode::Postfix(n) => (n.postfix_op.spec_kind().id() == TOK_PLUS_PLUS
            || n.postfix_op.spec_kind().id() == TOK_MINUS_MINUS) && wf_expr(n.sub_expr),
        ExprNode::Construct(n) => wf_expr(n.sub_expr) && (forall|i: int|
            0 <= i < n.arguments@.len() ==> wf_expr(#[trigger] n.arguments@[i])),
        ExprNode::Property(n) => wf_expr(n.target_expr) && n.property_name.spec_kind().id()
            == TOK_IDENTIFIER,
        ExprNode::Element(n) => wf_expr(n.target_expr) && wf_expr(n.element_expr),
        ExprNode::Call(n) => wf_expr(n.callee_expr) && (forall|i: int|
            0 <= i < n.arguments@.len() ==> wf_expr(#[trigger] n.arguments@[i])),
    }
}

/// Well-formedness of a statement tree.
pub open spec fn wf_stmt(s: StmtNode) -> bool
    decreases s,
{
    match s {
        StmtNode::Block(_) => true,
        StmtNode::Var(n) => forall|i: int|
            0 <= i < n.var_decls@.len() ==> wf_var_decl(#[trigger] n.var_decls@[i]),
        StmtNode::Empty(_) => true,
        StmtNode::If(n) => wf_expr(n.cond_expr) && wf_stmt(n.if_true_stmt) && match n
            .if_false_stmt {
            Some(f) => wf_stmt(f),
            None => true,
        },
        StmtNode::Expr(n) => wf_expr(n.expr),
    }
}

/// Well-formedness of one variable declaration: the name is an
/// identifier token, and the initializer, if present, is well-formed.
pub open spec fn wf_var_decl(d: VarDecl) -> bool {
    &&& d.name.spec_kind().id() == TOK_IDENTIFIER
    &&& match d.init_expr {
        Some(e) => wf_expr(e),
        None => true,
    }
}

/// Well-formedness of a whole program.
pub open spec fn wf_program(p: ProgramNode) -> bool {
    forall|i: int| 0 <= i < p.source_elements@.len() ==> wf_stmt(#[trigger] p.source_elements@[i])
}

impl StmtNode {
    pub fn kind(&self) -> (r: AstKind)
        ensures
            r == (match self {
                StmtNode::Block(_) => AstKind::BlockStmt,
                StmtNode::Var(_) => AstKind::VarStmt,
                StmtNode::Empty(_) => AstKind::EmptyStmt,
                StmtNode::If(_) => AstKind::IfStmt,
                StmtNode::Expr(_) => AstKind::ExprStmt,
            }),
    {
        match self {
            StmtNode::Block(_) => AstKind::BlockStmt,
            StmtNode::Var(_) => AstKind::VarStmt,
            StmtNode::Empty(_) => AstKind::EmptyStmt,
            StmtNode::If(_) => AstKind::IfStmt,
            StmtNode::Expr(_) => AstKind::ExprStmt,
        }
    }

    /// Every statement node answers yes; the role is carried by the type.
    pub fn is_statement(&self) -> (r: bool)
        ensures
            r,
    {
        true
    }

    pub fn is_expression(&self) -> (r: bool)
        ensures
            !r,
    {
        false
    }
}

impl ExprNode {
    pub fn kind(&self) -> (r: AstKind)
        ensures
            r == (match self {
                ExprNode::Atomic(_) => AstKind::AtomicExpr,
                ExprNode::Unary(_) => AstKind::UnaryOpExpr,
                ExprNode::Binary(_) => AstKind::BinaryOpExpr,
                ExprNode::Cond(_) => AstKind::CondExpr,
                ExprNode::Assign(_) => AstKind::AssignExpr,
                ExprNode::Comma(_) => AstKind::CommaExpr,
                ExprNode::Postfix(_) => AstKind::PostfixOpExpr,
                ExprNode::Construct(_) => AstKind::ConstructExpr,
                ExprNode::Property(_) => AstKind::PropertyExpr,
                ExprNode::Element(_) => AstKind::ElementExpr,
                ExprNode::Call(_) => AstKind::CallExpr,
            }),
    {
        match self {
            ExprNode::Atomic(_) => AstKind::AtomicExpr,
            ExprNode::Unary(_) => AstKind::UnaryOpExpr,
            ExprNode::Binary(_) => AstKind::BinaryOpExpr,
            ExprNode::Cond(_) => AstKind::CondExpr,
            ExprNode::Assign(_) => AstKind::AssignExpr,
            ExprNode::Comma(_) => AstKind::CommaExpr,
            ExprNode::Postfix(_) => AstKind::PostfixOpExpr,
            ExprNode::Construct(_) => AstKind::ConstructExpr,
            ExprNode::Property(_) => AstKind::PropertyExpr,
            ExprNode::Element(_) => AstKind::ElementExpr,
            ExprNode::Call(_) => AstKind::CallExpr,
        }
    }

    pub fn is_statement(&self) -> (r: bool)
        ensures
            !r,
    {
        false
    }

    pub fn is_expression(&self) -> (r: bool)
        ensures
            r,
    {
        true
    }
}

impl ProgramNode {
    pub fn new() -> (r: ProgramNode)
        ensures
            r.source_elements@.len() == 0,
            wf_program(r),
    {
        ProgramNode { source_elements: Vec::new() }
    }

    pub fn kind(&self) -> (r: AstKind)
        ensures
            r == AstKind::Program,
    {
        AstKind::Program
    }

    pub fn source_elements(&self) -> (r: &Vec<StmtNode>)
        ensures
            r == &self.source_elements,
    {
        &self.source_elements
    }

    pub fn add_source_element(&mut self, source_element: StmtNode)
        requires
            wf_stmt(source_element),
        ensures
            final(self).source_elements@ == old(self).source_elements@.push(source_element),
            wf_program(*old(self)) ==> wf_program(*final(self)),
    {
        self.source_elements.push(source_element);
    }
}

impl BlockStmtNode {
    pub fn new() -> (r: BlockStmtNode) {
        BlockStmtNode {  }
    }

    pub fn kind(&self) -> (r: AstKind)
        ensures
            r == AstKind::BlockStmt,
    {
        AstKind::BlockStmt
    }
}

impl VarStmtNode {
    pub fn new() -> (r: VarStmtNode)
        ensures
            r.var_decls@.len() == 0,
    {
        VarStmtNode { var_decls: Vec::new() }
    }

    pub fn kind(&self) -> (r: AstKind)
        ensures
            r == AstKind::VarStmt,
    {
        AstKind::VarStmt
    }

    pub fn var_decls(&self) -> (r: &Vec<VarDecl>)
        ensures
            r == &self.var_decls,
    {
        &self.var_decls
    }

    pub fn add_var_decl(&mut self, name: FullToken)
        requires
            name.spec_kind().id() == TOK_IDENTIFIER,
        ensures
            final(self).var_decls@ == old(self).var_decls@.push(
                VarDecl { name, init_expr: None },
            ),
    {
        self.var_decls.push(VarDecl::new(name, None));
    }

    pub fn add_var_decl_with_init(&mut self, name: FullToken, init: ExprNode)
        requires
            name.spec_kind().id() == TOK_IDENTIFIER,
            wf_expr(init),
        ensures
            final(self).var_decls@ == old(self).var_decls@.push(
                VarDecl { name, init_expr: Some(init) },
            ),
    {
        self.var_decls.push(VarDecl::new(name, Some(init)));
    }
}

impl VarDecl {
    pub fn new(name: FullToken, init_expr: Option<ExprNode>) -> (r: VarDecl)
        requires
            name.spec_kind().id() == TOK_IDENTIFIER,
            init_expr matches Some(e) ==> wf_expr(e),
        ensures
            r == (VarDecl { name, init_expr }),
            wf_var_decl(r),
    {
        VarDecl { name, init_expr }
    }

    pub fn name(&self) -> (r: &FullToken)
        ensures
            r == &self.name,
    {
        &self.name
    }

    pub fn has_init_expr(&self) -> (r: bool)
        ensures
            r == (self.init_expr is Some),
    {
        self.init_expr.is_some()
    }

    pub fn init_expr(&self) -> (r: Option<&ExprNode>)
        ensures
            r is Some <==> self.init_expr is Some,
            r matches Some(e) ==> self.init_expr matches Some(ie) && e == &ie,
    {
        match &self.init_expr {
            Some(e) => Some(e),
            None => None,
        }
    }
}

impl EmptyStmtNode {
    pub fn new() -> (r: EmptyStmtNode) {
        EmptyStmtNode {  }
    }

    pub fn kind(&self) -> (r: AstKind)
        ensures
            r == AstKind::EmptyStmt,
    {
        AstKind::EmptyStmt
    }
}

impl IfStmtNode {
    pub fn new_if(cond_expr: ExprNode, if_true_stmt: StmtNode) -> (r: IfStmtNode)
        requires
            wf_expr(cond_expr),
            wf_stmt(if_true_stmt),
        ensures
            r == (IfStmtNode { cond_expr, if_true_stmt, if_false_stmt: None }),
    {
        IfStmtNode { cond_expr, if_true_stmt, if_false_stmt: None }
    }

    pub fn new_if_else(cond_expr: ExprNode, if_true_stmt: StmtNode, if_false_stmt: StmtNode) -> (r:
        IfStmtNode)
        requires
            wf_expr(cond_expr),
            wf_stmt(if_true_stmt),
            wf_stmt(if_false_stmt),
        ensures
            r == (IfStmtNode { cond_expr, if_true_stmt, if_false_stmt: Some(if_false_stmt) }),
    {
        IfStmtNode { cond_expr, if_true_stmt, if_false_stmt: Some(if_false_stmt) }
    }

    pub fn kind(&self) -> (r: AstKind)
        ensures
            r == AstKind::IfStmt,
    {
        AstKind::IfStmt
    }

    pub fn cond_expr(&self) -> (r: &ExprNode)
        ensures
            r == &self.cond_expr,
    {
        &self.cond_expr
    }

    pub fn if_true_stmt(&self) -> (r: &StmtNode)
        ensures
            r == &self.if_true_stmt,
    {
        &self.if_true_stmt
    }

    pub fn has_if_false_stmt(&self) -> (r: bool)
        ensures
            r == (self.if_false_stmt is Some),
    {
        self.if_false_stmt.is_some()
    }

    pub fn if_false_stmt(&self) -> (r: Option<&StmtNode>)
        ensures
            r is Some <==> self.if_false_stmt is Some,
            r matches Some(f) ==> self.if_false_stmt matches Some(g) && f == &g,
    {
        match &self.if_false_stmt {
            Some(f) => Some(f),
            None => None,
        }
    }
}

impl ExprStmtNode {
    pub fn new(expr: ExprNode) -> (r: ExprStmtNode)
        requires
            wf_expr(expr),
        ensures
            r == (ExprStmtNode { expr }),
    {
        ExprStmtNode { expr }
    }

    pub fn kind(&self) -> (r: AstKind)
        ensures
            r == AstKind::ExprStmt,
    {
        AstKind::ExprStmt
    }

    pub fn expression(&self) -> (r: &ExprNode)
        ensures
            r == &self.expr,
    {
        &self.expr
    }
}

impl BinaryOpExprNode {
    pub fn new(binary_op: FullToken, left_expr: ExprNode, right_expr: ExprNode) -> (r:
        BinaryOpExprNode)
        requires
            wf_expr(left_expr),
            wf_expr(right_expr),
        ensures
            r == (BinaryOpExprNode { binary_op, left_expr, right_expr }),
    {
        BinaryOpExprNode { binary_op, left_expr, right_expr }
    }

    pub fn kind(&self) -> (r: AstKind)
        ensures
            r == AstKind::BinaryOpExpr,
    {
        AstKind::BinaryOpExpr
    }

    pub fn binary_op(&self) -> (r: &FullToken)
        ensures
            r == &self.binary_op,
    {
        &self.binary_op
    }

    pub fn left_expr(&self) -> (r: &ExprNode)
        ensures
            r == &self.left_expr,
    {
        &self.left_expr
    }

    pub fn right_expr(&self) -> (r: &ExprNode)
        ensures
            r == &self.right_expr,
    {
        &self.right_expr
    }
}

impl CondExprNode {
    pub fn new(cond_expr: ExprNode, if_expr: ExprNode, else_expr: ExprNode) -> (r: CondExprNode)
        requires
            wf_expr(cond_expr),
            wf_expr(if_expr),
            wf_expr(else_expr),
        ensures
            r == (CondExprNode { cond_expr, if_expr, else_expr }),
    {
        CondExprNode { cond_expr, if_expr, else_expr }
    }

    pub fn kind(&self) -> (r: AstKind)
        ensures
            r == AstKind::CondExpr,
    {
        AstKind::CondExpr
    }

    pub fn cond_expr(&self) -> (r: &ExprNode)
        ensures
            r == &self.cond_expr,
    {
        &self.cond_expr
    }

    pub fn if_expr(&self) -> (r: &ExprNode)
        ensures
            r == &self.if_expr,
    {
        &self.if_expr
    }

    pub fn else_expr(&self) -> (r: &ExprNode)
        ensures
            r == &self.else_expr,
    {
        &self.else_expr
    }
}

impl AssignExprNode {
    pub fn new(assign_op: FullToken, left_expr: ExprNode, right_expr: ExprNode) -> (r:
        AssignExprNode)
        requires
            assign_op.spec_kind().spec_is_assignment_op(),
            wf_expr(left_expr),
            wf_expr(right_expr),
        ensures
            r == (AssignExprNode { assign_op, left_expr, right_expr }),
    {
        AssignExprNode { assign_op, left_expr, right_expr }
    }

    pub fn kind(&self) -> (r: AstKind)
        ensures
            r == AstKind::AssignExpr,
    {
        AstKind::AssignExpr
    }

    pub fn assignment_op(&self) -> (r: &FullToken)
        ensures
            r == &self.assign_op,
    {
        &self.assign_op
    }

    pub fn left_expr(&self) -> (r: &ExprNode)
        ensures
            r == &self.left_expr,
    {
        &self.left_expr
    }

    pub fn right_expr(&self) -> (r: &ExprNode)
        ensures
            r == &self.right_expr,
    {
        &self.right_expr
    }
}

impl CommaExprNode {
    pub fn new(left_expr: ExprNode, right_expr: ExprNode) -> (r: CommaExprNode)
        requires
            wf_expr(left_expr),
            wf_expr(right_expr),
        ensures
            r == (CommaExprNode { left_expr, right_expr }),
    {
        CommaExprNode { left_expr, right_expr }
    }

    pub fn kind(&self) -> (r: AstKind)
        ensures
            r == AstKind::CommaExpr,
    {
        AstKind::CommaExpr
    }

    pub fn left_expr(&self) -> (r: &ExprNode)
        ensures
            r == &self.left_expr,
    {
        &self.left_expr
    }

    pub fn right_expr(&self) -> (r: &ExprNode)
        ensures
            r == &self.right_expr,
    {
        &self.right_expr
    }
}

impl PostfixOpExprNode {
    pub fn new(postfix_op: FullToken, sub_expr: ExprNode) -> (r: PostfixOpExprNode)
        requires
            postfix_op.spec_kind().id() == TOK_PLUS_PLUS || postfix_op.spec_kind().id()
                == TOK_MINUS_MINUS,
            wf_expr(sub_expr),
        ensures
            r == (PostfixOpExprNode { postfix_op, sub_expr }),
    {
        PostfixOpExprNode { postfix_op, sub_expr }
    }

    pub fn kind(&self) -> (r: AstKind)
        ensures
            r == AstKind::PostfixOpExpr,
    {
        AstKind::PostfixOpExpr
    }

    pub fn postfix_op(&self) -> (r: &FullToken)
        ensures
            r == &self.postfix_op,
    {
        &self.postfix_op
    }

    pub fn sub_expr(&self) -> (r: &ExprNode)
        ensures
            r == &self.sub_expr,
    {
        &self.sub_expr
    }
}

impl UnaryOpExprNode {
    pub fn new(unary_op: FullToken, sub_expr: ExprNode) -> (r: UnaryOpExprNode)
        requires
            unary_op.spec_kind().spec_is_unary_op(),
            wf_expr(sub_expr),
        ensures
            r == (UnaryOpExprNode { unary_op, sub_expr }),
    {
        UnaryOpExprNode { unary_op, sub_expr }
    }

    pub fn kind(&self) -> (r: AstKind)
        ensures
            r == AstKind::UnaryOpExpr,
    {
        AstKind::UnaryOpExpr
    }

    pub fn unary_op(&self) -> (r: &FullToken)
        ensures
            r == &self.unary_op,
    {
        &self.unary_op
    }

    pub fn sub_expr(&self) -> (r: &ExprNode)
        ensures
            r == &self.sub_expr,
    {
        &self.sub_expr
    }
}

impl ConstructExprNode {
    pub fn new_bare(sub_expr: ExprNode) -> (r: ConstructExprNode)
        requires
            wf_expr(sub_expr),
        ensures
            r.sub_expr == sub_expr,
            r.arguments@.len() == 0,
            r.has_arguments == false,
    {
        ConstructExprNode { sub_expr, arguments: Vec::new(), has_arguments: false }
    }

    pub fn new_with_arguments(sub_expr: ExprNode, arguments: Vec<ExprNode>) -> (r:
        ConstructExprNode)
        requires
            wf_expr(sub_expr),
            forall|i: int| 0 <= i < arguments@.len() ==> wf_expr(#[trigger] arguments@[i]),
        ensures
            r == (ConstructExprNode { sub_expr, arguments, has_arguments: true }),
    {
        ConstructExprNode { sub_expr, arguments, has_arguments: true }
    }

    pub fn kind(&self) -> (r: AstKind)
        ensures
            r == AstKind::ConstructExpr,
    {
        AstKind::ConstructExpr
    }

    pub fn sub_expr(&self) -> (r: &ExprNode)
        ensures
            r == &self.sub_expr,
    {
        &self.sub_expr
    }

    pub fn has_arguments(&self) -> (r: bool)
        ensures
            r == self.has_arguments,
    {
        self.has_arguments
    }

    pub fn arguments(&self) -> (r: &Vec<ExprNode>)
        ensures
            r == &self.arguments,
    {
        &self.arguments
    }
}

impl PropertyExprNode {
    pub fn new(target_expr: ExprNode, property_name: FullToken) -> (r: PropertyExprNode)
        requires
            wf_expr(target_expr),
            property_name.spec_kind().id() == TOK_IDENTIFIER,
        ensures
            r == (PropertyExprNode { target_expr, property_name }),
    {
        PropertyExprNode { target_expr, property_name }
    }

    pub fn kind(&self) -> (r: AstKind)
        ensures
            r == AstKind::PropertyExpr,
    {
        AstKind::PropertyExpr
    }

    pub fn target_expr(&self) -> (r: &ExprNode)
        ensures
            r == &self.target_expr,
    {
        &self.target_expr
    }

    pub fn property_name(&self) -> (r: &FullToken)
        ensures
            r == &self.property_name,
    {
        &self.property_name
    }
}

impl ElementExprNode {
    pub fn new(target_expr: ExprNode, element_expr: ExprNode) -> (r: ElementExprNode)
        requires
            wf_expr(target_expr),
            wf_expr(element_expr),
        ensures
            r == (ElementExprNode { target_expr, element_expr }),
    {
        ElementExprNode { target_expr, element_expr }
    }

    pub fn kind(&self) -> (r: AstKind)
        ensures
            r == AstKind::ElementExpr,
    {
        AstKind::ElementExpr
    }

    pub fn target_expr(&self) -> (r: &ExprNode)
        ensures
            r == &self.target_expr,
    {
        &self.target_expr
    }

    pub fn element_expr(&self) -> (r: &ExprNode)
        ensures
            r == &self.element_expr,
    {
        &self.element_expr
    }
}

impl CallExprNode {
    pub fn new(callee_expr: ExprNode, arguments: Vec<ExprNode>) -> (r: CallExprNode)
        requires
            wf_expr(callee_expr),
            forall|i: int| 0 <= i < arguments@.len() ==> wf_expr(#[trigger] arguments@[i]),
        ensures
            r == (CallExprNode { callee_expr, arguments }),
    {
        CallExprNode { callee_expr, arguments }
    }

    pub fn kind(&self) -> (r: AstKind)
        ensures
            r == AstKind::CallExpr,
    {
        AstKind::CallExpr
    }

    pub fn callee_expr(&self) -> (r: &ExprNode)
        ensures
            r == &self.callee_expr,
    {
        &self.callee_expr
    }

    pub fn arguments(&self) -> (r: &Vec<ExprNode>)
        ensures
            r == &self.arguments,
    {
        &self.arguments
    }
}

impl AtomicExprNode {
    pub fn new(name: FullToken) -> (r: AtomicExprNode)
        requires
            name.spec_kind().spec_is_atomic_expr(),
        ensures
            r == (AtomicExprNode { name }),
    {
        AtomicExprNode { name }
    }

    pub fn kind(&self) -> (r: AstKind)
        ensures
            r == AstKind::AtomicExpr,
    {
        AstKind::AtomicExpr
    }

    pub fn name(&self) -> (r: &FullToken)
        ensures
            r == &self.name,
    {
        &self.name
    }
}



/// The size of an expression tree, the termination measure of the
/// diagnostic dump.
pub open spec fn expr_size(e: ExprNode) -> nat
    decreases e,
{
    match e {
        ExprNode::Atomic(_) => 1,
        ExprNode::Unary(n) => 1 + expr_size(n.sub_expr),
        ExprNode::Binary(n) => 1 + expr_size(n.left_expr) + expr_size(n.right_expr),
        ExprNode::Cond(n) => 1 + expr_size(n.cond_expr) + expr_size(n.if_expr) + expr_size(
            n.else_expr,
        ),
        ExprNode::Assign(n) => 1 + expr_size(n.left_expr) + expr_size(n.right_expr),
        ExprNode::Comma(n) => 1 + expr_size(n.left_expr) + expr_size(n.right_expr),
        ExprNode::Postfix(n) => 1 + expr_size(n.sub_expr),
        ExprNode::Construct(n) => 1 + expr_size(n.sub_expr) + exprs_size(n.arguments@),
        ExprNode::Property(n) => 1 + expr_size(n.target_expr),
        ExprNode::Element(n) => 1 + expr_size(n.target_expr) + expr_size(n.element_expr),
        ExprNode::Call(n) => 1 + expr_size(n.callee_expr) + exprs_size(n.arguments@),
    }
}

/// The summed size of a sequence of expressions.
pub open spec fn exprs_size(s: Seq<ExprNode>) -> nat
    decreases s,
{
    if s.len() == 0 {
        0
    } else {
        expr_size(s.last()) + exprs_size(s.drop_last())
    }
}

/// The size of a declaration.
pub open spec fn decl_size(d: VarDecl) -> nat {
    match d.init_expr {
        Some(e) => 1 + expr_size(e),
        None => 1,
    }
}

/// The summed size of a sequence of declarations.
pub open spec fn decls_size(s: Seq<VarDecl>) -> nat
    decreases s.len(),
{
    if s.len() == 0 {
        0
    } else {
        decl_size(s.last()) + decls_size(s.drop_last())
    }
}

/// The size of a statement tree.
pub open spec fn stmt_size(st: StmtNode) -> nat
    decreases st,
{
    match st {
        StmtNode::Block(_) => 1,
        StmtNode::Var(n) => 1 + decls_size(n.var_decls@),
        StmtNode::Empty(_) => 1,
        StmtNode::If(n) => 1 + expr_size(n.cond_expr) + stmt_size(n.if_true_stmt) + match n
            .if_false_stmt {
            Some(f) => stmt_size(f),
            None => 0,
        },
        StmtNode::Expr(n) => 1 + expr_size(n.expr),
    }
}

/// An element's size is bounded by the sequence's summed size.
pub proof fn lemma_exprs_size_bound(s: Seq<ExprNode>, i: int)
    requires
        0 <= i < s.len(),
    ensures
        expr_size(s[i]) <= exprs_size(s),
    decreases s.len(),
{
    if i == s.len() - 1 {
        assert(s.last() == s[i]);
    } else {
        lemma_exprs_size_bound(s.drop_last(), i);
        assert(s.drop_last()[i] == s[i]);
    }
}

/// A declaration's size is bounded by the sequence's summed size.
pub proof fn lemma_decls_size_bound(s: Seq<VarDecl>, i: int)
    requires
        0 <= i < s.len(),
    ensures
        decl_size(s[i]) <= decls_size(s),
    decreases s.len(),
{
    if i == s.len() - 1 {
        assert(s.last() == s[i]);
    } else {
        lemma_decls_size_bound(s.drop_last(), i);
        assert(s.drop_last()[i] == s[i]);
    }
}

impl StmtNode {
    /// A deterministic bracketed rendering for diagnostics; the format
    /// is not a stable machine-readable surface.
    pub fn tree_string(&self) -> String
        decreases stmt_size(*self),
    {
        match self {
            StmtNode::Block(_) => {
                let mut s = String::new();
                s.append("Block{}");
                s
            },
            StmtNode::Var(n) => {
                let mut s = String::new();
                s.append("Var{");
                let mut i: usize = 0;
                while i < n.var_decls.len()
                    invariant
                        decls_size(n.var_decls@) < stmt_size(*self),
                    decreases n.var_decls@.len() - i,
                {
                    if i > 0 {
                        s.append(", ");
                    }
                    proof {
                        lemma_decls_size_bound(n.var_decls@, i as int);
                    }
                    let d = n.var_decls[i].tree_string();
                    s.append(d.as_str());
                    i = i + 1;
                }
                s.append("}");
                s
            },
            StmtNode::Empty(_) => {
                let mut s = String::new();
                s.append("Empty{}");
                s
            },
            StmtNode::If(n) => {
                let mut s = String::new();
                s.append("If(");
                let c = n.cond_expr.tree_string();
                s.append(c.as_str());
                s.append("){");
                let t = n.if_true_stmt.tree_string();
                s.append(t.as_str());
                s.append("}");
                match &n.if_false_stmt {
                    Some(f) => {
                        s.append("Else{");
                        let e = f.tree_string();
                        s.append(e.as_str());
                        s.append("}");
                    },
                    None => {},
                }
                s
            },
            StmtNode::Expr(n) => {
                let mut s = String::new();
                s.append("ExprStmt{");
                let e = n.expr.tree_string();
                s.append(e.as_str());
                s.append("}");
                s
            },
        }
    }
}

impl VarDecl {
    /// The declaration's rendering inside a `Var{...}` dump.
    pub fn tree_string(&self) -> String
        decreases decl_size(*self),
    {
        let mut s = String::new();
        let nm = self.name.token_string();
        s.append(nm.as_str());
        match &self.init_expr {
            Some(e) => {
                s.append(" = ");
                let es = e.tree_string();
                s.append(es.as_str());
            },
            None => {},
        }
        s
    }
}

impl ExprNode {
    /// A deterministic bracketed rendering for diagnostics.
    pub fn tree_string(&self) -> String
        decreases expr_size(*self),
    {
        match self {
            ExprNode::Atomic(n) => {
                let mut s = String::new();
                s.append("AtomicExpr{");
                let nm = n.name.token_string();
                s.append(nm.as_str());
                s.append("}");
                s
            },
            ExprNode::Unary(n) => {
                let mut s = String::new();
                s.append("UnaryOpExpr(");
                let op = n.unary_op.token_string();
                s.append(op.as_str());
                s.append("){");
                let e = n.sub_expr.tree_string();
                s.append(e.as_str());
                s.append("}");
                s
            },
            ExprNode::Binary(n) => {
                let mut s = String::new();
                s.append("BinaryOpExpr(");
                let op = n.binary_op.token_string();
                s.append(op.as_str());
                s.append("){");
                let l = n.left_expr.tree_string();
                s.append(l.as_str());
                s.append(", ");
                let r = n.right_expr.tree_string();
                s.append(r.as_str());
                s.append("}");
                s
            },
            ExprNode::Cond(n) => {
                let mut s = String::new();
                s.append("CondExpr{");
                let c = n.cond_expr.tree_string();
                s.append(c.as_str());
                s.append(", ");
                let t = n.if_expr.tree_string();
                s.append(t.as_str());
                s.append(", ");
                let e = n.else_expr.tree_string();
                s.append(e.as_str());
                s.append("}");
                s
            },
            ExprNode::Assign(n) => {
                let mut s = String::new();
                s.append("AssignExpr(");
                let op = n.assign_op.token_string();
                s.append(op.as_str());
                s.append("){");
                let l = n.left_expr.tree_string();
                s.append(l.as_str());
                s.append(", ");
                let r = n.right_expr.tree_string();
                s.append(r.as_str());
                s.append("}");
                s
            },
            ExprNode::Comma(n) => {
                let mut s = String::new();
                s.append("CommaExpr{");
                let l = n.left_expr.tree_string();
                s.append(l.as_str());
                s.append(", ");
                let r = n.right_expr.tree_string();
                s.append(r.as_str());
                s.append("}");
                s
            },
            ExprNode::Postfix(n) => {
                let mut s = String::new();
                s.append("PostfixOpExpr(");
                let op = n.postfix_op.token_string();
                s.append(op.as_str());
                s.append("){");
                let e = n.sub_expr.tree_string();
                s.append(e.as_str());
                s.append("}");
                s
            },
            ExprNode::Construct(n) => {
                let mut s = String::new();
                s.append("ConstructExpr{");
                let e = n.sub_expr.tree_string();
                s.append(e.as_str());
                if n.has_arguments {
                    s.append("(");
                    let mut i: usize = 0;
                    while i < n.arguments.len()
                        invariant
                            exprs_size(n.arguments@) < expr_size(*self),
                        decreases n.arguments@.len() - i,
                    {
                        if i > 0 {
                            s.append(", ");
                        }
                        proof {
                            lemma_exprs_size_bound(n.arguments@, i as int);
                        }
                        let a = n.arguments[i].tree_string();
                        s.append(a.as_str());
                        i = i + 1;
                    }
                    s.append(")");
                }
                s.append("}");
                s
            },
            ExprNode::Property(n) => {
                let mut s = String::new();
                s.append("PropertyExpr{");
                let t = n.target_expr.tree_string();
                s.append(t.as_str());
                s.append(";");
                let nm = n.property_name.token_string();
                s.append(nm.as_str());
                s.append("}");
                s
            },
            ExprNode::Element(n) => {
                let mut s = String::new();
                s.append("ElementExpr{");
                let t = n.target_expr.tree_string();
                s.append(t.as_str());
                s.append(";");
                let e = n.element_expr.tree_string();
                s.append(e.as_str());
                s.append("}");
                s
            },
            ExprNode::Call(n) => {
                let mut s = String::new();
                s.append("CallExpr{");
                let c = n.callee_expr.tree_string();
                s.append(c.as_str());
                s.append("(");
                let mut i: usize = 0;
                while i < n.arguments.len()
                    invariant
                        exprs_size(n.arguments@) < expr_size(*self),
                    decreases n.arguments@.len() - i,
                {
                    if i > 0 {
                        s.append(", ");
                    }
                    proof {
                        lemma_exprs_size_bound(n.arguments@, i as int);
                    }
                    let a = n.arguments[i].tree_string();
                    s.append(a.as_str());
                    i = i + 1;
                }
                s.append(")}");
                s
            },
        }
    }
}

impl ProgramNode {
    /// A deterministic bracketed rendering of the whole tree.
    pub fn tree_string(&self) -> String {
        let mut s = String::new();
        s.append("ProgramNode{");
        let mut i: usize = 0;
        while i < self.source_elements.len()
            decreases self.source_elements@.len() - i,
        {
            if i > 0 {
                s.append(", ");
            }
            let e = self.source_elements[i].tree_string();
            s.append(e.as_str());
            i = i + 1;
        }
        s.append("}");
        s
    }
}

/// An identifier or literal leaf expression.
#[derive(Debug)]
pub struct AtomicExprNode {
    pub name: FullToken,
}

} // verus!
