//! The meaning of programs: a big-step semantics over a model of the
//! interpreter's state. `fuel` bounds the nesting of calls and the number of
//! `while` iterations; running out of it is a failure of its own.
use vstd::prelude::*;
use crate::ast::{decl_size, expr_size, exprs_size, stmt_size, stmts_size, Expr, ForStmt, LogicOp, Stmt, UnOp, VarDeclStmt, WhileStmt};
use crate::env::{assign, declare, lookup, names_view, FrameM};
use crate::error::{Failure, Fault};
use crate::value::{negate_spec, operate_spec, NativeFn, Val};

verus! {

/// The model of a user function: parameter names, body and captured frame.
pub struct ClosureM {
    pub params: Seq<Seq<char>>,
    pub body: Vec<Stmt>,
    pub env: usize,
}

/// The model of the whole interpreter state.
pub struct State {
    pub frames: Seq<FrameM>,
    pub funcs: Seq<ClosureM>,
    pub printed: Seq<Val>,
    pub clock: i64,
}

/// The three ways an evaluation ends.
pub enum Res {
    Normal(Val),
    Returning(Val),
    Failed(Failure),
}

pub open spec fn fail(kind: Fault, loc: crate::ast::Loc) -> Res {
    Res::Failed(Failure { kind, loc: Some(loc) })
}

pub open spec fn with_frames(st: State, frames: Seq<FrameM>) -> State {
    State { frames, ..st }
}

/// `st` with a new empty frame whose parent is `parent`.
pub open spec fn push_frame(st: State, parent: int) -> State {
    with_frames(st, st.frames.push(FrameM { names: Seq::empty(), vals: Seq::empty(), parent: Some(parent as usize) }))
}

pub open spec fn is_true_name(n: Seq<char>) -> bool {
    n == "true"@
}

pub open spec fn is_false_name(n: Seq<char>) -> bool {
    n == "false"@
}

pub open spec fn is_null_name(n: Seq<char>) -> bool {
    n == "null"@
}

/// The left operand settles a logical operator: `or` on true, `and` on false.
pub open spec fn short_circuits(op: LogicOp, b: bool) -> bool {
    (op == LogicOp::Or && b) || (op == LogicOp::And && !b)
}

/// Evaluates an expression in frame `env`. The result is never `Returning`.
pub open spec fn eval(fuel: nat, st: State, env: int, e: Expr) -> (State, Res)
    decreases fuel, expr_size(e), 2int, 0int,
{
    match e {
        Expr::Binary { left, op, right, loc } => {
            let (s1, l) = eval(fuel, st, env, *left);
            match l {
                Res::Normal(lv) => if lv == Val::Null {
                    (s1, fail(Fault::UninitializedValue, left.loc_of()))
                } else {
                    let (s2, r) = eval(fuel, s1, env, *right);
                    match r {
                        Res::Normal(rv) => if rv == Val::Null {
                            (s2, fail(Fault::UninitializedValue, right.loc_of()))
                        } else {
                            match operate_spec(lv, rv, op) {
                                Some(v) => (s2, Res::Normal(v)),
                                None => (s2, fail(Fault::OperationEvaluation(op), loc)),
                            }
                        },
                        _ => (s2, r),
                    }
                },
                _ => (s1, l),
            }
        },
        Expr::Assign { name, value, loc } => {
            let (s1, r) = eval(fuel, st, env, *value);
            match r {
                Res::Normal(v) => match assign(s1.frames, env, name@, v) {
                    Some(fs) => (with_frames(s1, fs), Res::Normal(Val::Null)),
                    None => (s1, fail(Fault::AssignEnv(name@), loc)),
                },
                _ => (s1, r),
            }
        },
        Expr::Grouping { expr, .. } => eval(fuel, st, env, *expr),
        Expr::IntLiteral { value, .. } => (st, Res::Normal(Val::Int(value))),
        Expr::StrLiteral { value, .. } => (st, Res::Normal(Val::Str(value@))),
        Expr::Identifier { name, loc } => if is_true_name(name@) {
            (st, Res::Normal(Val::Bool(true)))
        } else if is_false_name(name@) {
            (st, Res::Normal(Val::Bool(false)))
        } else if is_null_name(name@) {
            (st, Res::Normal(Val::Null))
        } else {
            match lookup(st.frames, env, name@) {
                Some(v) => (st, Res::Normal(v)),
                None => (st, fail(Fault::GetVarEnv(name@), loc)),
            }
        },
        Expr::Unary { op, right, loc } => {
            let (s1, r) = eval(fuel, st, env, *right);
            match r {
                Res::Normal(v) => (s1, unary_result(v, op, loc)),
                _ => (s1, r),
            }
        },
        Expr::Logical { left, op, right, loc } => {
            let (s1, l) = eval(fuel, st, env, *left);
            match l {
                Res::Normal(Val::Bool(b)) => if short_circuits(op, b) {
                    (s1, l)
                } else {
                    eval(fuel, s1, env, *right)
                },
                Res::Normal(_) => (s1, fail(Fault::NonBoolIfCond, loc)),
                _ => (s1, l),
            }
        },
        Expr::Call { callee, args, loc } => {
            let (s1, c) = eval(fuel, st, env, *callee);
            match c {
                Res::Normal(cv) => {
                    let (s2, a) = eval_args(fuel, s1, env, args, 0, Seq::empty());
                    match a {
                        Ok(vals) => invoke(fuel, s2, cv, vals, e),
                        Err(f) => (s2, Res::Failed(f)),
                    }
                },
                _ => (s1, c),
            }
        },
    }
}

/// A prefix operator applied to an evaluated operand.
pub open spec fn unary_result(v: Val, op: UnOp, loc: crate::ast::Loc) -> Res {
    match (v, op) {
        (Val::Int(_), UnOp::Not) => fail(Fault::BangOpOnNonBool, loc),
        (Val::Bool(_), UnOp::Neg) => fail(Fault::NegateNonNumeric, loc),
        (Val::Str(_), UnOp::Neg) => fail(Fault::NegateNonNumeric, loc),
        (Val::Null, UnOp::Neg) => fail(Fault::NegateNonNumeric, loc),
        _ => match negate_spec(v, op) {
            Some(x) => Res::Normal(x),
            None => fail(Fault::Negation(op), loc),
        },
    }
}

/// Evaluates `args[i..]` left to right, after the values `acc` of `args[..i]`.
pub open spec fn eval_args(fuel: nat, st: State, env: int, args: Vec<Expr>, i: int, acc: Seq<Val>) -> (State, Result<Seq<Val>, Failure>)
    decreases fuel, exprs_size(args@, i), 3int, 0int,
{
    if i < 0 || i >= args.len() {
        (st, Ok(acc))
    } else {
        let (s1, r) = eval(fuel, st, env, args@[i]);
        match r {
            Res::Normal(v) => eval_args(fuel, s1, env, args, i + 1, acc.push(v)),
            Res::Failed(f) => (s1, Err(f)),
            Res::Returning(v) => (s1, Ok(acc.push(v))),
        }
    }
}

/// Calls `callee` on evaluated arguments; `call` is the call expression.
pub open spec fn invoke(fuel: nat, st: State, callee: Val, args: Seq<Val>, call: Expr) -> (State, Res)
    decreases fuel, expr_size(call), 1int, 0int,
{
    let loc = call.loc_of();
    match callee {
        Val::Func(i) => if i < st.funcs.len() {
            let c = st.funcs[i as int];
            if c.params.len() != args.len() {
                (st, fail(Fault::WrongArgsNb(c.params.len() as usize, args.len() as usize), loc))
            } else if fuel == 0 {
                (st, fail(Fault::OutOfFuel, loc))
            } else {
                let frame = FrameM { names: c.params, vals: args, parent: Some(c.env) };
                let s1 = with_frames(st, st.frames.push(frame));
                let (s2, r) = exec_seq((fuel - 1) as nat, s1, st.frames.len() as int, c.body, 0, Val::Null);
                match r {
                    Res::Normal(_) => (s2, Res::Normal(Val::Null)),
                    Res::Returning(v) => (s2, Res::Normal(v)),
                    Res::Failed(f) => (s2, fail(Fault::FnCall(Box::new(f.kind)), loc)),
                }
            }
        } else {
            (st, fail(Fault::NonFnCall, loc))
        },
        Val::Native(NativeFn::Clock) => if args.len() != 0 {
            (st, fail(Fault::WrongArgsNb(0, args.len() as usize), loc))
        } else {
            (st, Res::Normal(Val::Int(st.clock)))
        },
        _ => (st, fail(Fault::NonFnCall, loc)),
    }
}

/// Runs `stmts[i..]` in frame `env`; `last` is the value of the statement
/// before `i`. Ends with the value of the last statement, or the first
/// `Returning` or failure.
pub open spec fn exec_seq(fuel: nat, st: State, env: int, stmts: Vec<Stmt>, i: int, last: Val) -> (State, Res)
    decreases fuel, stmts_size(stmts@, i), 3int, 0int,
{
    if i < 0 || i >= stmts.len() {
        (st, Res::Normal(last))
    } else {
        let (s1, r) = exec(fuel, st, env, stmts@[i]);
        match r {
            Res::Normal(v) => exec_seq(fuel, s1, env, stmts, i + 1, v),
            _ => (s1, r),
        }
    }
}

/// Declares a variable in frame `env`, evaluating its initializer first.
pub open spec fn var_decl(fuel: nat, st: State, env: int, d: VarDeclStmt) -> (State, Res)
    decreases fuel, decl_size(d), 2int, 0int,
{
    let (s1, r) = match d.value {
        Some(x) => eval(fuel, st, env, x),
        None => (st, Res::Normal(Val::Null)),
    };
    match r {
        Res::Normal(v) => match declare(s1.frames, env, d.name@, v) {
            Some(fs) => (with_frames(s1, fs), Res::Normal(Val::Null)),
            None => (s1, fail(Fault::VarDeclEnv(d.name@), d.loc)),
        },
        _ => (s1, r),
    }
}

/// Runs one statement in frame `env`.
pub open spec fn exec(fuel: nat, st: State, env: int, s: Stmt) -> (State, Res)
    decreases fuel, stmt_size(s), 2int, 0int,
{
    match s {
        Stmt::Expr(x) => eval(fuel, st, env, x.expr),
        Stmt::Print(p) => {
            let (s1, r) = eval(fuel, st, env, p.expr);
            match r {
                Res::Normal(v) => (State { printed: s1.printed.push(v), ..s1 }, Res::Normal(Val::Null)),
                _ => (s1, r),
            }
        },
        Stmt::VarDecl(d) => var_decl(fuel, st, env, d),
        Stmt::Block(b) => {
            let (s2, r) = exec_seq(fuel, push_frame(st, env), st.frames.len() as int, b.stmts, 0, Val::Null);
            match r {
                Res::Normal(_) => (s2, Res::Normal(Val::Null)),
                _ => (s2, r),
            }
        },
        Stmt::If(i) => {
            let (s1, c) = eval(fuel, st, env, i.condition);
            match c {
                Res::Normal(Val::Bool(true)) => match i.then_branch {
                    Some(t) => exec(fuel, s1, env, *t),
                    None => (s1, Res::Normal(Val::Null)),
                },
                Res::Normal(Val::Bool(false)) => match i.else_branch {
                    Some(t) => exec(fuel, s1, env, *t),
                    None => (s1, Res::Normal(Val::Null)),
                },
                Res::Normal(_) => (s1, fail(Fault::NonBoolIfCond, i.loc)),
                _ => (s1, c),
            }
        },
        Stmt::While(w) => while_loop(fuel, st, env, w),
        Stmt::For(f) => {
            let nf = st.frames.len() as int;
            let (s1, r) = var_decl(fuel, push_frame(st, env), nf, f.placeholder);
            match r {
                Res::Normal(_) => for_loop(fuel, s1, nf, f, f.range.first()),
                _ => (s1, r),
            }
        },
        Stmt::FnDecl(d) => {
            let c = ClosureM { params: names_view(d.params@), body: *d.body, env: env as usize };
            match declare(st.frames, env, d.name@, Val::Func(st.funcs.len() as usize)) {
                Some(fs) => (State { frames: fs, funcs: st.funcs.push(c), ..st }, Res::Normal(Val::Null)),
                None => (st, fail(Fault::VarDeclEnv(d.name@), d.loc)),
            }
        },
        Stmt::Return(r) => {
            let (s1, v) = match r.value {
                Some(x) => eval(fuel, st, env, x),
                None => (st, Res::Normal(Val::Null)),
            };
            match v {
                Res::Normal(x) => (s1, Res::Returning(x)),
                _ => (s1, v),
            }
        },
    }
}

/// A `while` loop: each iteration checks the condition (which must be a
/// boolean) and costs one unit of fuel.
pub open spec fn while_loop(fuel: nat, st: State, env: int, w: WhileStmt) -> (State, Res)
    decreases fuel, expr_size(w.condition) + stmt_size(*w.body), 3int, 0int,
{
    if fuel == 0 {
        (st, fail(Fault::OutOfFuel, w.loc))
    } else {
        let (s1, c) = eval(fuel, st, env, w.condition);
        match c {
            Res::Normal(Val::Bool(true)) => {
                let (s2, r) = exec(fuel, s1, env, *w.body);
                match r {
                    Res::Normal(_) => while_loop((fuel - 1) as nat, s2, env, w),
                    _ => (s2, r),
                }
            },
            Res::Normal(Val::Bool(false)) => (s1, Res::Normal(Val::Null)),
            Res::Normal(_) => (s1, fail(Fault::NonBoolWhileCond, w.loc)),
            _ => (s1, c),
        }
    }
}

/// Iterations `i..=last` of a `for` loop whose placeholder lives in `frame`.
pub open spec fn for_loop(fuel: nat, st: State, frame: int, f: ForStmt, i: int) -> (State, Res)
    decreases fuel, stmt_size(*f.body), 3int, f.range.last() - i,
{
    if i > f.range.last() || i < i64::MIN {
        (st, Res::Normal(Val::Null))
    } else {
        match assign(st.frames, frame, f.placeholder.name@, Val::Int(i as i64)) {
            None => (st, fail(Fault::ForLoop(f.placeholder.name@), f.loc)),
            Some(fs) => {
                let (s2, r) = exec(fuel, with_frames(st, fs), frame, *f.body);
                match r {
                    Res::Normal(_) => if i == f.range.last() {
                        (s2, Res::Normal(Val::Null))
                    } else {
                        for_loop(fuel, s2, frame, f, i + 1)
                    },
                    _ => (s2, r),
                }
            },
        }
    }
}

/// A whole program at top level, in the globals frame: the value of its last
/// statement; a `return` that reaches the top is reported as a failure
/// without location.
pub open spec fn run(fuel: nat, st: State, stmts: Vec<Stmt>) -> (State, Res) {
    let (s1, r) = exec_seq(fuel, st, 0, stmts, 0, Val::Null);
    match r {
        Res::Returning(v) => (s1, Res::Failed(Failure { kind: Fault::Return(v), loc: None })),
        _ => (s1, r),
    }
}

} // verus!
