use std::rc::Rc;

use phy_interp::ast::{
    BinOp, BlockStmt, Expr, ExprStmt, FnDeclStmt, ForRange, ForStmt, IfStmt, Loc, LogicOp,
    PrintStmt, ReturnStmt, Stmt, UnOp, VarDeclStmt, WhileStmt,
};
use phy_interp::error::{InterpErr, RunError};
use phy_interp::interpreter::Interpreter;
use phy_interp::value::Value;

fn at(line: u64) -> Loc {
    Loc { line, col: 0, start: 0, end: 0 }
}

fn num(n: i64) -> Expr {
    Expr::IntLiteral { value: n, loc: at(0) }
}

fn text(s: &str) -> Expr {
    Expr::StrLiteral { value: s.to_string(), loc: at(0) }
}

fn id(name: &str) -> Expr {
    Expr::Identifier { name: name.to_string(), loc: at(0) }
}

fn bin(l: Expr, op: BinOp, r: Expr) -> Expr {
    Expr::Binary { left: Box::new(l), op, right: Box::new(r), loc: at(0) }
}

fn group(e: Expr) -> Expr {
    Expr::Grouping { expr: Box::new(e), loc: at(0) }
}

fn unary(op: UnOp, e: Expr) -> Expr {
    Expr::Unary { op, right: Box::new(e), loc: at(0) }
}

fn logic(l: Expr, op: LogicOp, r: Expr) -> Expr {
    Expr::Logical { left: Box::new(l), op, right: Box::new(r), loc: at(0) }
}

fn assign(name: &str, e: Expr) -> Expr {
    Expr::Assign { name: name.to_string(), value: Box::new(e), loc: at(0) }
}

fn call(callee: Expr, args: Vec<Expr>) -> Expr {
    Expr::Call { callee: Box::new(callee), args, loc: at(0) }
}

fn st(e: Expr) -> Stmt {
    Stmt::Expr(ExprStmt { expr: e, loc: at(0) })
}

fn decl(name: &str, value: Option<Expr>) -> VarDeclStmt {
    VarDeclStmt { name: name.to_string(), value, loc: at(0) }
}

fn var(name: &str, value: Expr) -> Stmt {
    Stmt::VarDecl(decl(name, Some(value)))
}

fn scope(stmts: Vec<Stmt>) -> Stmt {
    Stmt::Block(BlockStmt { stmts, loc: at(0) })
}

fn if_else(cond: Expr, then_branch: Option<Stmt>, else_branch: Option<Stmt>) -> Stmt {
    Stmt::If(IfStmt {
        condition: cond,
        then_branch: then_branch.map(Box::new),
        else_branch: else_branch.map(Box::new),
        loc: at(0),
    })
}

fn for_in(name: &str, start: i64, end: Option<i64>, body: Stmt) -> Stmt {
    Stmt::For(ForStmt {
        placeholder: decl(name, None),
        range: ForRange { start, end },
        body: Box::new(body),
        loc: at(0),
    })
}

fn func(name: &str, params: &[&str], body: Vec<Stmt>) -> Stmt {
    Stmt::FnDecl(FnDeclStmt {
        name: name.to_string(),
        params: params.iter().map(|p| p.to_string()).collect(),
        body: Rc::new(body),
        loc: at(0),
    })
}

fn ret(e: Option<Expr>) -> Stmt {
    Stmt::Return(ReturnStmt { value: e, loc: at(0) })
}

fn run(prog: Vec<Stmt>) -> Result<Value, RunError> {
    let mut interp = Interpreter::new();
    interp.interpret(&prog)
}

fn err_of(prog: Vec<Stmt>) -> InterpErr {
    run(prog).err().unwrap().err
}

fn s(v: &str) -> Value {
    Value::Str(v.to_string())
}

#[test]
fn interp_literals() {
    assert_eq!(run(vec![st(num(1))]).unwrap(), Value::Int(1));
    assert_eq!(run(vec![st(text("hello world!"))]).unwrap(), s("hello world!"));
}

#[test]
fn interp_binop() {
    // 1 +2
    assert_eq!(run(vec![st(bin(num(1), BinOp::Add, num(2)))]).unwrap(), Value::Int(3));
    // 5 + (6 * (2+3)) - (((6)))
    let e = bin(
        bin(num(5), BinOp::Add, group(bin(num(6), BinOp::Mul, group(bin(num(2), BinOp::Add, num(3)))))),
        BinOp::Sub,
        group(group(group(num(6)))),
    );
    assert_eq!(run(vec![st(e)]).unwrap(), Value::Int(29));
}

#[test]
fn interp_str_op() {
    assert_eq!(run(vec![st(bin(text("foo"), BinOp::Mul, num(4)))]).unwrap(), s("foofoofoofoo"));
    assert_eq!(run(vec![st(bin(num(4), BinOp::Mul, text("foo")))]).unwrap(), s("foofoofoofoo"));
    let e = bin(bin(text("foo"), BinOp::Add, text(" ")), BinOp::Add, text("bar"));
    assert_eq!(run(vec![st(e)]).unwrap(), s("foo bar"));
    assert!(matches!(
        err_of(vec![st(bin(text("foo"), BinOp::Add, num(56)))]),
        InterpErr::OperationEvaluation { .. }
    ));
}

#[test]
fn interp_negation() {
    assert_eq!(run(vec![st(unary(UnOp::Neg, num(3)))]).unwrap(), Value::Int(-3));
    assert_eq!(run(vec![st(unary(UnOp::Not, id("true")))]).unwrap(), Value::Bool(false));
    assert_eq!(run(vec![st(unary(UnOp::Not, id("false")))]).unwrap(), Value::Bool(true));
    assert_eq!(err_of(vec![st(unary(UnOp::Neg, text("foo")))]), InterpErr::NegateNonNumeric);
    assert_eq!(err_of(vec![st(unary(UnOp::Not, num(8)))]), InterpErr::BangOpOnNonBool);
}

#[test]
fn variable() {
    let neg8 = || unary(UnOp::Neg, num(8));
    assert_eq!(run(vec![var("a", neg8()), st(id("a"))]).unwrap(), Value::Int(-8));

    let prog = vec![
        var("a", neg8()),
        st(assign("a", bin(num(4), BinOp::Add, bin(id("a"), BinOp::Mul, num(2))))),
        st(id("a")),
    ];
    assert_eq!(run(prog).unwrap(), Value::Int(-12));

    assert!(matches!(err_of(vec![st(assign("a", num(5)))]), InterpErr::AssignEnv { .. }));

    let prog = vec![Stmt::VarDecl(decl("b", None)), st(bin(num(3), BinOp::Add, id("b")))];
    assert_eq!(err_of(prog), InterpErr::UninitializedValue);
}

#[test]
fn block() {
    let prog = vec![
        var("a", unary(UnOp::Neg, num(8))),
        scope(vec![
            var("b", num(1)),
            st(assign("b", bin(id("a"), BinOp::Add, num(9)))),
            st(assign("a", id("b"))),
        ]),
        st(id("a")),
    ];
    assert_eq!(run(prog).unwrap(), Value::Int(1));
}

fn set_b(n: i64) -> Stmt {
    scope(vec![st(assign("b", num(n)))])
}

#[test]
fn if_stmt() {
    let prog = vec![
        var("a", id("true")),
        var("b", num(0)),
        if_else(id("a"), Some(set_b(1)), Some(scope(vec![]))),
        st(id("b")),
    ];
    assert_eq!(run(prog).unwrap(), Value::Int(1));

    let prog = vec![
        var("a", id("false")),
        var("b", num(0)),
        if_else(id("a"), Some(set_b(8)), Some(set_b(1))),
        st(id("b")),
    ];
    assert_eq!(run(prog).unwrap(), Value::Int(1));

    let prog = vec![
        var("a", id("false")),
        var("b", num(42)),
        if_else(id("a"), Some(scope(vec![])), Some(scope(vec![]))),
        st(id("b")),
    ];
    assert_eq!(run(prog).unwrap(), Value::Int(42));

    let prog = vec![var("a", num(5)), if_else(id("a"), Some(scope(vec![])), Some(scope(vec![])))];
    assert!(err_of(prog) == InterpErr::NonBoolIfCond);
}

#[test]
fn logical() {
    let b_is = |n: i64| bin(id("b"), BinOp::Eq, num(n));
    let prog = vec![
        var("a", id("true")),
        var("b", num(0)),
        if_else(logic(id("a"), LogicOp::And, b_is(0)), Some(set_b(1)), None),
        st(id("b")),
    ];
    assert_eq!(run(prog).unwrap(), Value::Int(1));

    let four_is_five = bin(bin(num(2), BinOp::Add, num(2)), BinOp::Eq, num(5));
    let prog = vec![
        var("a", id("true")),
        var("b", num(0)),
        if_else(logic(id("a"), LogicOp::And, four_is_five), Some(scope(vec![])), Some(set_b(1))),
        st(id("b")),
    ];
    assert_eq!(run(prog).unwrap(), Value::Int(1));

    let prog = vec![
        var("a", id("true")),
        var("b", num(0)),
        if_else(logic(id("a"), LogicOp::Or, id("false")), Some(set_b(1)), None),
        st(id("b")),
    ];
    assert_eq!(run(prog).unwrap(), Value::Int(1));

    let prog = vec![
        var("a", id("false")),
        var("b", num(0)),
        if_else(logic(id("a"), LogicOp::Or, id("false")), Some(scope(vec![])), Some(set_b(1))),
        st(id("b")),
    ];
    assert_eq!(run(prog).unwrap(), Value::Int(1));

    // a and b == 41 or b == 42 and false
    let cond = logic(
        logic(id("a"), LogicOp::And, b_is(41)),
        LogicOp::Or,
        logic(b_is(42), LogicOp::And, id("false")),
    );
    let prog = vec![
        var("a", id("true")),
        var("b", num(42)),
        if_else(cond, Some(scope(vec![])), Some(set_b(45))),
        st(id("b")),
    ];
    assert_eq!(run(prog).unwrap(), Value::Int(45));
}

#[test]
fn while_stmt() {
    let prog = vec![
        var("a", num(0)),
        Stmt::While(WhileStmt {
            condition: bin(id("a"), BinOp::Less, num(5)),
            body: Box::new(scope(vec![st(assign("a", bin(id("a"), BinOp::Add, num(1))))])),
            loc: at(0),
        }),
        st(id("a")),
    ];
    assert_eq!(run(prog).unwrap(), Value::Int(5));
}

fn add_i_to_a() -> Stmt {
    scope(vec![st(assign("a", bin(id("a"), BinOp::Add, id("i"))))])
}

#[test]
fn for_stmt() {
    let prog = vec![var("a", num(0)), for_in("i", 5, None, add_i_to_a()), st(id("a"))];
    assert_eq!(run(prog).unwrap(), Value::Int(15));

    let prog = vec![var("a", num(0)), for_in("i", 5, Some(10), add_i_to_a()), st(id("a"))];
    assert_eq!(run(prog).unwrap(), Value::Int(45));
}

#[test]
fn functions() {
    let prog = vec![
        Stmt::VarDecl(decl("res", None)),
        func("add", &["a", "b"], vec![st(assign("res", bin(id("a"), BinOp::Add, id("b"))))]),
        st(call(id("add"), vec![num(5), num(6)])),
        st(id("res")),
    ];
    assert_eq!(run(prog).unwrap(), Value::Int(11));
}

#[test]
fn first_class_fn() {
    let prog = vec![
        func("add", &["a", "b"], vec![ret(Some(bin(id("a"), BinOp::Add, id("b"))))]),
        var("c", id("add")),
        st(call(id("c"), vec![num(1), num(2)])),
    ];
    assert_eq!(run(prog).unwrap(), Value::Int(3));
}

fn fib_program(n: i64) -> Vec<Stmt> {
    let body = vec![
        if_else(bin(id("n"), BinOp::LessEq, num(1)), Some(scope(vec![ret(Some(id("n")))])), None),
        ret(Some(bin(
            call(id("fib"), vec![bin(id("n"), BinOp::Sub, num(2))]),
            BinOp::Add,
            call(id("fib"), vec![bin(id("n"), BinOp::Sub, num(1))]),
        ))),
    ];
    vec![func("fib", &["n"], body), st(call(id("fib"), vec![num(n)]))]
}

#[test]
fn recurs_and_break_fn() {
    assert_eq!(run(fib_program(20)).unwrap(), Value::Int(6765));
}

fn counter_program() -> Vec<Stmt> {
    vec![
        func(
            "makeCounter",
            &[],
            vec![
                var("i", num(0)),
                func(
                    "count",
                    &[],
                    vec![st(assign("i", bin(id("i"), BinOp::Add, num(1)))), ret(Some(id("i")))],
                ),
                ret(Some(id("count"))),
            ],
        ),
        var("counter", call(id("makeCounter"), vec![])),
        var("a", num(0)),
        st(assign("a", call(id("counter"), vec![]))),
        st(assign("a", call(id("counter"), vec![]))),
        st(id("a")),
    ]
}

#[test]
fn closure_env() {
    assert_eq!(run(counter_program()).unwrap(), Value::Int(2));
}
