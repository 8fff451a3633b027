use std::rc::Rc;

use phy_interp::ast::{
    BinOp, BlockStmt, Expr, ExprStmt, FnDeclStmt, ForRange, ForStmt, IfStmt, Loc, LogicOp,
    PrintStmt, ReturnStmt, Stmt, UnOp, VarDeclStmt, WhileStmt,
};
use phy_interp::error::{InterpErr, RunError};
use phy_interp::interpreter::{Flow, Interpreter};
use phy_interp::value::Value;

fn at(line: u64) -> Loc {
    Loc { line, col: 0, start: 0, end: 0 }
}

fn num(n: i64) -> Expr {
    Expr::IntLiteral { value: n, loc: at(0) }
}

fn text(s: &str) -> Expr {
    Expr::StrLiteral { value: s.to_string(), loc: at(0) }
}

fn id(name: &str) -> Expr {
    Expr::Identifier { name: name.to_string(), loc: at(0) }
}

fn bin(l: Expr, op: BinOp, r: Expr) -> Expr {
    Expr::Binary { left: Box::new(l), op, right: Box::new(r), loc: at(0) }
}

fn group(e: Expr) -> Expr {
    Expr::Grouping { expr: Box::new(e), loc: at(0) }
}

fn unary(op: UnOp, e: Expr) -> Expr {
    Expr::Unary { op, right: Box::new(e), loc: at(0) }
}

fn logic(l: Expr, op: LogicOp, r: Expr) -> Expr {
    Expr::Logical { left: Box::new(l), op, right: Box::new(r), loc: at(0) }
}

fn assign(name: &str, e: Expr) -> Expr {
    Expr::Assign { name: name.to_string(), value: Box::new(e), loc: at(0) }
}

fn call(callee: Expr, args: Vec<Expr>) -> Expr {
    Expr::Call { callee: Box::new(callee), args, loc: at(0) }
}

fn st(e: Expr) -> Stmt {
    Stmt::Expr(ExprStmt { expr: e, loc: at(0) })
}

fn decl(name: &str, value: Option<Expr>) -> VarDeclStmt {
    VarDeclStmt { name: name.to_string(), value, loc: at(0) }
}

fn var(name: &str, value: Expr) -> Stmt {
    Stmt::VarDecl(decl(name, Some(value)))
}

fn scope(stmts: Vec<Stmt>) -> Stmt {
    Stmt::Block(BlockStmt { stmts, loc: at(0) })
}

fn if_else(cond: Expr, then_branch: Option<Stmt>, else_branch: Option<Stmt>) -> Stmt {
    Stmt::If(IfStmt {
        condition: cond,
        then_branch: then_branch.map(Box::new),
        else_branch: else_branch.map(Box::new),
        loc: at(0),
    })
}

fn for_in(name: &str, start: i64, end: Option<i64>, body: Stmt) -> Stmt {
    Stmt::For(ForStmt {
        placeholder: decl(name, None),
        range: ForRange { start, end },
        body: Box::new(body),
        loc: at(0),
    })
}

fn func(name: &str, params: &[&str], body: Vec<Stmt>) -> Stmt {
    Stmt::FnDecl(FnDeclStmt {
        name: name.to_string(),
        params: params.iter().map(|p| p.to_string()).collect(),
        body: Rc::new(body),
        loc: at(0),
    })
}

fn ret(e: Option<Expr>) -> Stmt {
    Stmt::Return(ReturnStmt { value: e, loc: at(0) })
}

fn run(prog: Vec<Stmt>) -> Result<Value, RunError> {
    let mut interp = Interpreter::new();
    interp.interpret(&prog)
}

fn err_of(prog: Vec<Stmt>) -> InterpErr {
    run(prog).err().unwrap().err
}

fn s(v: &str) -> Value {
    Value::Str(v.to_string())
}


fn set_flag() -> Stmt {
    func("touch", &[], vec![st(assign("flag", num(1))), ret(Some(id("true")))])
}

#[test]
fn division_and_comparison() {
    assert_eq!(run(vec![st(bin(num(-7), BinOp::Div, num(2)))]).unwrap(), Value::Int(-3));
    assert_eq!(run(vec![st(bin(num(7), BinOp::Div, num(2)))]).unwrap(), Value::Int(3));
    assert_eq!(run(vec![st(bin(num(3), BinOp::GreaterEq, num(3)))]).unwrap(), Value::Bool(true));
    assert_eq!(run(vec![st(bin(text("a"), BinOp::NotEq, text("b")))]).unwrap(), Value::Bool(true));
    assert_eq!(
        err_of(vec![st(bin(num(1), BinOp::Div, num(0)))]),
        InterpErr::OperationEvaluation(BinOp::Div)
    );
    assert_eq!(
        err_of(vec![st(bin(num(i64::MAX), BinOp::Add, num(1)))]),
        InterpErr::OperationEvaluation(BinOp::Add)
    );
    assert_eq!(
        err_of(vec![st(bin(text("foo"), BinOp::Mul, num(-1)))]),
        InterpErr::OperationEvaluation(BinOp::Mul)
    );
    assert_eq!(run(vec![st(bin(text("ab"), BinOp::Mul, num(0)))]).unwrap(), s(""));
}

#[test]
fn negation_refused_by_value_model() {
    assert_eq!(err_of(vec![st(unary(UnOp::Not, text("foo")))]), InterpErr::Negation(UnOp::Not));
    assert_eq!(err_of(vec![st(unary(UnOp::Neg, num(i64::MIN)))]), InterpErr::Negation(UnOp::Neg));
    assert_eq!(err_of(vec![st(unary(UnOp::Neg, id("null")))]), InterpErr::NegateNonNumeric);
}

#[test]
fn uninitialized_right_operand_and_null_literal() {
    let r = run(vec![Stmt::VarDecl(decl("b", None)), st(bin(id("b"), BinOp::Add, num(3)))]).err().unwrap();
    assert_eq!(r.err, InterpErr::UninitializedValue);
    assert_eq!(run(vec![st(bin(num(3), BinOp::Add, id("null")))]).err().unwrap().err, InterpErr::UninitializedValue);
}

#[test]
fn unresolved_and_duplicate_names() {
    assert_eq!(err_of(vec![st(id("nope"))]), InterpErr::GetVarEnv("nope".to_string()));
    assert_eq!(err_of(vec![st(assign("nope", num(1)))]), InterpErr::AssignEnv("nope".to_string()));
    assert_eq!(
        err_of(vec![var("a", num(1)), var("a", num(2))]),
        InterpErr::VarDeclEnv("a".to_string())
    );
    // shadowing in an inner frame is allowed
    let prog = vec![var("a", num(1)), scope(vec![var("a", num(2))]), st(id("a"))];
    assert_eq!(run(prog).unwrap(), Value::Int(1));
}

#[test]
fn reserved_names_win_over_bindings() {
    let prog = vec![var("true", num(3)), st(id("true"))];
    assert_eq!(run(prog).unwrap(), Value::Bool(true));
}

#[test]
fn block_scope_is_closed() {
    let prog = vec![scope(vec![var("inner", num(1))]), st(id("inner"))];
    assert_eq!(err_of(prog), InterpErr::GetVarEnv("inner".to_string()));
    let prog = vec![var("a", num(1)), scope(vec![st(assign("a", num(7)))]), st(id("a"))];
    assert_eq!(run(prog).unwrap(), Value::Int(7));
}

#[test]
fn short_circuit_skips_right_operand() {
    let prog = vec![
        var("flag", num(0)),
        set_flag(),
        st(logic(id("false"), LogicOp::And, call(id("touch"), vec![]))),
        st(logic(id("true"), LogicOp::Or, call(id("touch"), vec![]))),
        st(id("flag")),
    ];
    assert_eq!(run(prog).unwrap(), Value::Int(0));
    let prog = vec![
        var("flag", num(0)),
        set_flag(),
        st(logic(id("true"), LogicOp::And, call(id("touch"), vec![]))),
        st(id("flag")),
    ];
    assert_eq!(run(prog).unwrap(), Value::Int(1));
    // the right operand is returned unchecked
    assert_eq!(run(vec![st(logic(id("true"), LogicOp::And, num(5)))]).unwrap(), Value::Int(5));
    assert_eq!(err_of(vec![st(logic(num(1), LogicOp::Or, id("true")))]), InterpErr::NonBoolIfCond);
}

#[test]
fn if_without_matching_branch_is_null() {
    let prog = vec![if_else(id("false"), Some(scope(vec![])), None)];
    assert_eq!(run(prog).unwrap(), Value::Null);
    let prog = vec![if_else(id("true"), Some(st(num(4))), None)];
    assert_eq!(run(prog).unwrap(), Value::Int(4));
}

#[test]
fn while_needs_bool_and_fuel() {
    let prog = vec![Stmt::While(WhileStmt { condition: num(1), body: Box::new(scope(vec![])), loc: at(3) })];
    let e = run(prog).err().unwrap();
    assert_eq!(e.err, InterpErr::NonBoolWhileCond);
    assert_eq!(e.loc, Some(at(3)));

    let mut interp = Interpreter::new();
    interp.set_fuel(10);
    let prog = vec![Stmt::While(WhileStmt { condition: id("true"), body: Box::new(scope(vec![])), loc: at(4) })];
    assert_eq!(interp.interpret(&prog).err().unwrap().err, InterpErr::OutOfFuel);
}

#[test]
fn for_placeholder_is_shared() {
    let prog = vec![
        var("f", id("null")),
        for_in("i", 1, Some(3), scope(vec![
            func("get", &[], vec![ret(Some(id("i")))]),
            st(assign("f", id("get"))),
        ])),
        st(call(id("f"), vec![])),
    ];
    assert_eq!(run(prog).unwrap(), Value::Int(3));
    let prog = vec![var("a", num(0)), for_in("i", 3, Some(1), add_i_to_a()), st(id("a"))];
    assert_eq!(run(prog).unwrap(), Value::Int(0));
}

#[test]
fn call_errors() {
    let add = || func("add", &["a", "b"], vec![ret(Some(bin(id("a"), BinOp::Add, id("b"))))]);
    assert_eq!(
        err_of(vec![add(), st(call(id("add"), vec![num(1)]))]),
        InterpErr::WrongArgsNb(2, 1)
    );
    assert_eq!(err_of(vec![st(call(num(3), vec![]))]), InterpErr::NonFnCall);
    assert_eq!(
        err_of(vec![add(), st(call(id("add"), vec![num(1), text("x")]))]),
        InterpErr::FnCall(Box::new(InterpErr::OperationEvaluation(BinOp::Add)))
    );
    assert_eq!(err_of(vec![ret(Some(num(9)))]), InterpErr::Return(Value::Int(9)));
    assert_eq!(run(vec![func("f", &[], vec![]), st(call(id("f"), vec![]))]).unwrap(), Value::Null);
}

#[test]
fn print_and_clock() {
    let mut interp = Interpreter::new();
    interp.set_clock(1234);
    let prog = vec![
        Stmt::Print(PrintStmt { expr: bin(num(2), BinOp::Mul, num(21)), loc: at(0) }),
        Stmt::Print(PrintStmt { expr: call(id("clock"), vec![]), loc: at(0) }),
    ];
    assert_eq!(interp.interpret(&prog).unwrap(), Value::Null);
    assert_eq!(interp.take_printed(), vec![Value::Int(42), Value::Int(1234)]);
    assert!(interp.take_printed().is_empty());
    assert_eq!(
        interp.interpret(&vec![st(call(id("clock"), vec![num(1)]))]).err().unwrap().err,
        InterpErr::WrongArgsNb(0, 1)
    );
}

#[test]
fn block_statement_runs_in_child_frame() {
    let mut interp = Interpreter::new();
    let r = interp.execute_block_stmt(&vec![var("x", num(2)), st(bin(id("x"), BinOp::Add, num(1)))], 0);
    assert_eq!(r.unwrap(), Flow::Normal(Value::Int(3)));
    assert_eq!(interp.interpret(&vec![st(id("x"))]).err().unwrap().err, InterpErr::GetVarEnv("x".to_string()));
}

#[test]
fn state_persists_across_runs() {
    let mut interp = Interpreter::new();
    assert!(interp.interpret(&vec![var("a", num(5))]).is_ok());
    assert_eq!(interp.interpret(&vec![st(id("a"))]).unwrap(), Value::Int(5));
}

fn add_i_to_a() -> Stmt {
    scope(vec![st(assign("a", bin(id("a"), BinOp::Add, id("i"))))])
}
