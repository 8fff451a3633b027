//! The syntax tree that the evaluator consumes: statements and expressions,
//! each node carrying the place in the source where it was written.
use vstd::prelude::*;

verus! {

/// A place in the source text.
#[derive(Clone, Copy, Debug, PartialEq, Eq, Structural)]
pub struct Loc {
    pub line: u64,
    pub col: u64,
    pub start: u64,
    pub end: u64,
}

/// Binary operators dispatched to the value model.
#[derive(Clone, Copy, Debug, PartialEq, Eq, Structural)]
pub enum BinOp {
    Add,
    Sub,
    Mul,
    Div,
    Eq,
    NotEq,
    Less,
    LessEq,
    Greater,
    GreaterEq,
}

/// Prefix operators: `-` and `!`.
#[derive(Clone, Copy, Debug, PartialEq, Eq, Structural)]
pub enum UnOp {
    Neg,
    Not,
}

/// Short-circuiting operators.
#[derive(Clone, Copy, Debug, PartialEq, Eq, Structural)]
pub enum LogicOp {
    And,
    Or,
}

#[derive(Debug, PartialEq)]
pub enum Expr {
    Binary { left: Box<Expr>, op: BinOp, right: Box<Expr>, loc: Loc },
    Assign { name: String, value: Box<Expr>, loc: Loc },
    Grouping { expr: Box<Expr>, loc: Loc },
    IntLiteral { value: i64, loc: Loc },
    StrLiteral { value: String, loc: Loc },
    Identifier { name: String, loc: Loc },
    Unary { op: UnOp, right: Box<Expr>, loc: Loc },
    Logical { left: Box<Expr>, op: LogicOp, right: Box<Expr>, loc: Loc },
    Call { callee: Box<Expr>, args: Vec<Expr>, loc: Loc },
}

impl Expr {
    pub open spec fn loc_of(self) -> Loc {
        match self {
            Expr::Binary { loc, .. } => loc,
            Expr::Assign { loc, .. } => loc,
            Expr::Grouping { loc, .. } => loc,
            Expr::IntLiteral { loc, .. } => loc,
            Expr::StrLiteral { loc, .. } => loc,
            Expr::Identifier { loc, .. } => loc,
            Expr::Unary { loc, .. } => loc,
            Expr::Logical { loc, .. } => loc,
            Expr::Call { loc, .. } => loc,
        }
    }

    /// The source location of this node.
    pub fn get_loc(&self) -> (r: Loc)
        ensures
            r == self.loc_of(),
    {
        match self {
            Expr::Binary { loc, .. } => *loc,
            Expr::Assign { loc, .. } => *loc,
            Expr::Grouping { loc, .. } => *loc,
            Expr::IntLiteral { loc, .. } => *loc,
            Expr::StrLiteral { loc, .. } => *loc,
            Expr::Identifier { loc, .. } => *loc,
            Expr::Unary { loc, .. } => *loc,
            Expr::Logical { loc, .. } => *loc,
            Expr::Call { loc, .. } => *loc,
        }
    }
}

#[derive(Debug, PartialEq)]
pub enum Stmt {
    Expr(ExprStmt),
    Print(PrintStmt),
    VarDecl(VarDeclStmt),
    Block(BlockStmt),
    If(IfStmt),
    While(WhileStmt),
    For(ForStmt),
    FnDecl(FnDeclStmt),
    Return(ReturnStmt),
}

#[derive(Debug, PartialEq)]
pub struct ExprStmt {
    pub expr: Expr,
    pub loc: Loc,
}

#[derive(Debug, PartialEq)]
pub struct PrintStmt {
    pub expr: Expr,
    pub loc: Loc,
}

#[derive(Debug, PartialEq)]
pub struct BlockStmt {
    pub stmts: Vec<Stmt>,
    pub loc: Loc,
}

#[derive(Debug, PartialEq)]
pub struct VarDeclStmt {
    pub name: String,
    pub value: Option<Expr>,
    pub loc: Loc,
}

#[derive(Debug, PartialEq)]
pub struct IfStmt {
    pub condition: Expr,
    pub then_branch: Option<Box<Stmt>>,
    pub else_branch: Option<Box<Stmt>>,
    pub loc: Loc,
}

#[derive(Debug, PartialEq)]
pub struct WhileStmt {
    pub condition: Expr,
    pub body: Box<Stmt>,
    pub loc: Loc,
}

/// `for x in placeholder { .. }`: the placeholder is declared once in a frame of
/// its own and reassigned on every iteration.
#[derive(Debug, PartialEq)]
pub struct ForStmt {
    pub placeholder: VarDeclStmt,
    pub range: ForRange,
    pub body: Box<Stmt>,
    pub loc: Loc,
}

/// An inclusive integer range: `N` stands for `0..=N`, `A..B` for `A..=B`.
#[derive(Clone, Copy, Debug, PartialEq, Eq, Structural)]
pub struct ForRange {
    pub start: i64,
    pub end: Option<i64>,
}

impl ForRange {
    /// First value of the placeholder.
    pub open spec fn first(self) -> int {
        match self.end {
            Some(_) => self.start as int,
            None => 0,
        }
    }

    /// Last value of the placeholder (inclusive).
    pub open spec fn last(self) -> int {
        match self.end {
            Some(e) => e as int,
            None => self.start as int,
        }
    }
}

#[derive(Debug, PartialEq)]
pub struct FnDeclStmt {
    pub name: String,
    pub params: Vec<String>,
    pub body: std::rc::Rc<Vec<Stmt>>,
    pub loc: Loc,
}

#[derive(Debug, PartialEq)]
pub struct ReturnStmt {
    pub value: Option<Expr>,
    pub loc: Loc,
}

/// Number of nodes of an expression.
pub open spec fn expr_size(e: Expr) -> nat
    decreases e, 0int,
{
    match e {
        Expr::Binary { left, right, .. } => 1 + expr_size(*left) + expr_size(*right),
        Expr::Assign { value, .. } => 1 + expr_size(*value),
        Expr::Grouping { expr, .. } => 1 + expr_size(*expr),
        Expr::Unary { right, .. } => 1 + expr_size(*right),
        Expr::Logical { left, right, .. } => 1 + expr_size(*left) + expr_size(*right),
        Expr::Call { callee, args, .. } => 1 + expr_size(*callee) + exprs_size(args@, 0),
        _ => 1,
    }
}

/// Number of nodes of `es[i..]`.
pub open spec fn exprs_size(es: Seq<Expr>, i: int) -> nat
    decreases es, es.len() - i,
{
    if i < 0 || i >= es.len() {
        0
    } else {
        1 + expr_size(es[i]) + exprs_size(es, i + 1)
    }
}

pub open spec fn opt_expr_size(e: Option<Expr>) -> nat {
    match e {
        Some(x) => expr_size(x),
        None => 0,
    }
}

pub open spec fn decl_size(d: VarDeclStmt) -> nat {
    1 + opt_expr_size(d.value)
}

/// Number of nodes of a statement; a function body counts for nothing, as
/// it only runs through a call.
pub open spec fn stmt_size(s: Stmt) -> nat
    decreases s, 0int,
{
    match s {
        Stmt::Expr(x) => 1 + expr_size(x.expr),
        Stmt::Print(p) => 1 + expr_size(p.expr),
        Stmt::VarDecl(d) => 1 + decl_size(d),
        Stmt::Block(b) => 1 + stmts_size(b.stmts@, 0),
        Stmt::If(i) => 1 + expr_size(i.condition) + match i.then_branch {
            Some(t) => stmt_size(*t),
            None => 0,
        } + match i.else_branch {
            Some(t) => stmt_size(*t),
            None => 0,
        },
        Stmt::While(w) => 1 + expr_size(w.condition) + stmt_size(*w.body),
        Stmt::For(f) => 1 + decl_size(f.placeholder) + stmt_size(*f.body),
        Stmt::FnDecl(_) => 1,
        Stmt::Return(r) => 1 + opt_expr_size(r.value),
    }
}

/// Number of nodes of `ss[i..]`.
pub open spec fn stmts_size(ss: Seq<Stmt>, i: int) -> nat
    decreases ss, ss.len() - i,
{
    if i < 0 || i >= ss.len() {
        0
    } else {
        1 + stmt_size(ss[i]) + stmts_size(ss, i + 1)
    }
}

} // verus!
