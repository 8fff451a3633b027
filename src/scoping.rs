//! Scoping: evaluation only ever adds bindings to the active frame. Every
//! other frame that existed before keeps its names and its parent, so what a
//! block declares cannot be reached once the block has ended.
use vstd::prelude::*;
use crate::ast::{decl_size, expr_size, exprs_size, stmt_size, stmts_size, BlockStmt, Expr, ForStmt, Stmt, VarDeclStmt, WhileStmt};
use crate::env::{assign, declare, find, lookup, slot_from, FrameM};
use crate::semantics::{eval, eval_args, exec, exec_seq, for_loop, invoke, push_frame, var_decl, while_loop, Res, State};
use crate::value::Val;

verus! {

/// From `a` to `b` frames were only added, no parent changed, and only frame
/// `e` (none, when `e` is negative) may have gained names.
pub open spec fn keeps(a: State, b: State, e: int) -> bool {
    &&& a.frames.len() <= b.frames.len()
    &&& forall|g: int| 0 <= g < a.frames.len() ==> #[trigger] b.frames[g].parent == a.frames[g].parent
    &&& forall|g: int| 0 <= g < a.frames.len() && g != e ==> #[trigger] b.frames[g].names == a.frames[g].names
}

/// What `find` answers is a frame of the arena and a non-negative slot.
pub proof fn lemma_find_bounds(frames: Seq<FrameM>, f: int, n: Seq<char>)
    ensures
        find(frames, f, n) matches Some((g, k)) ==> 0 <= g < frames.len() && 0 <= k,
    decreases f,
{
    if 0 <= f < frames.len() && slot_from(frames[f].names, n, 0) < 0 {
        match frames[f].parent {
            Some(p) => if p < f {
                lemma_find_bounds(frames, p as int, n);
            },
            None => {},
        }
    }
}

pub proof fn lemma_assign_keeps(st: State, f: int, n: Seq<char>, v: Val)
    ensures
        assign(st.frames, f, n, v) matches Some(fs) ==> keeps(st, State { frames: fs, ..st }, -1),
{
    lemma_find_bounds(st.frames, f, n);
}

proof fn lemma_declare_keeps(st: State, f: int, n: Seq<char>, v: Val)
    ensures
        declare(st.frames, f, n, v) matches Some(fs) ==> keeps(st, State { frames: fs, ..st }, f),
{
}

/// Frames at or below `f` decide `find` from `f` by their names and parents alone.
proof fn lemma_find_kept(a: State, b: State, f: int, n: Seq<char>)
    requires
        keeps(a, b, -1),
        f < a.frames.len(),
    ensures
        find(b.frames, f, n) == find(a.frames, f, n),
    decreases f,
{
    if 0 <= f {
        assert(b.frames[f].names == a.frames[f].names);
        assert(b.frames[f].parent == a.frames[f].parent);
        match a.frames[f].parent {
            Some(p) => if p < f {
                lemma_find_kept(a, b, p as int, n);
            },
            None => {},
        }
    }
}

pub proof fn lemma_eval_keeps(fuel: nat, st: State, env: int, e: Expr)
    ensures
        keeps(st, eval(fuel, st, env, e).0, -1),
    decreases fuel, expr_size(e), 2int, 0int,
{
    match e {
        Expr::Binary { left, right, .. } => {
            let (s1, l) = eval(fuel, st, env, *left);
            lemma_eval_keeps(fuel, st, env, *left);
            lemma_eval_keeps(fuel, s1, env, *right);
        },
        Expr::Assign { name, value, .. } => {
            let (s1, r) = eval(fuel, st, env, *value);
            lemma_eval_keeps(fuel, st, env, *value);
            if let Res::Normal(v) = r {
                lemma_assign_keeps(s1, env, name@, v);
            }
        },
        Expr::Grouping { expr, .. } => {
            lemma_eval_keeps(fuel, st, env, *expr);
        },
        Expr::Unary { right, .. } => {
            lemma_eval_keeps(fuel, st, env, *right);
        },
        Expr::Logical { left, right, .. } => {
            let (s1, l) = eval(fuel, st, env, *left);
            lemma_eval_keeps(fuel, st, env, *left);
            lemma_eval_keeps(fuel, s1, env, *right);
        },
        Expr::Call { callee, args, .. } => {
            let (s1, c) = eval(fuel, st, env, *callee);
            lemma_eval_keeps(fuel, st, env, *callee);
            if let Res::Normal(cv) = c {
                let (s2, a) = eval_args(fuel, s1, env, args, 0, Seq::empty());
                lemma_args_keeps(fuel, s1, env, args, 0, Seq::empty());
                if let Ok(vals) = a {
                    lemma_invoke_keeps(fuel, s2, cv, vals, e);
                }
            }
        },
        _ => {},
    }
}

pub proof fn lemma_args_keeps(fuel: nat, st: State, env: int, args: Vec<Expr>, i: int, acc: Seq<Val>)
    ensures
        keeps(st, eval_args(fuel, st, env, args, i, acc).0, -1),
    decreases fuel, exprs_size(args@, i), 3int, 0int,
{
    if 0 <= i < args.len() {
        let (s1, r) = eval(fuel, st, env, args@[i]);
        lemma_eval_keeps(fuel, st, env, args@[i]);
        if let Res::Normal(v) = r {
            lemma_args_keeps(fuel, s1, env, args, i + 1, acc.push(v));
        }
    }
}

proof fn lemma_invoke_keeps(fuel: nat, st: State, callee: Val, args: Seq<Val>, call: Expr)
    ensures
        keeps(st, invoke(fuel, st, callee, args, call).0, -1),
    decreases fuel, expr_size(call), 1int, 0int,
{
    if let Val::Func(i) = callee {
        if i < st.funcs.len() && st.funcs[i as int].params.len() == args.len() && fuel > 0 {
            let c = st.funcs[i as int];
            let frame = FrameM { names: c.params, vals: args, parent: Some(c.env) };
            let s1 = State { frames: st.frames.push(frame), ..st };
            lemma_seq_keeps((fuel - 1) as nat, s1, st.frames.len() as int, c.body, 0, Val::Null);
        }
    }
}

pub proof fn lemma_seq_keeps(fuel: nat, st: State, env: int, stmts: Vec<Stmt>, i: int, last: Val)
    ensures
        keeps(st, exec_seq(fuel, st, env, stmts, i, last).0, env),
    decreases fuel, stmts_size(stmts@, i), 3int, 0int,
{
    if 0 <= i < stmts.len() {
        let (s1, r) = exec(fuel, st, env, stmts@[i]);
        lemma_exec_keeps(fuel, st, env, stmts@[i]);
        if let Res::Normal(v) = r {
            lemma_seq_keeps(fuel, s1, env, stmts, i + 1, v);
        }
    }
}

pub proof fn lemma_var_decl_keeps(fuel: nat, st: State, env: int, d: VarDeclStmt)
    ensures
        keeps(st, var_decl(fuel, st, env, d).0, env),
    decreases fuel, decl_size(d), 2int, 0int,
{
    let (s1, r) = match d.value {
        Some(x) => eval(fuel, st, env, x),
        None => (st, Res::Normal(Val::Null)),
    };
    if let Some(x) = d.value {
        lemma_eval_keeps(fuel, st, env, x);
    }
    if let Res::Normal(v) = r {
        lemma_declare_keeps(s1, env, d.name@, v);
    }
}

pub proof fn lemma_exec_keeps(fuel: nat, st: State, env: int, s: Stmt)
    ensures
        keeps(st, exec(fuel, st, env, s).0, env),
    decreases fuel, stmt_size(s), 2int, 0int,
{
    match s {
        Stmt::Expr(x) => {
            lemma_eval_keeps(fuel, st, env, x.expr);
        },
        Stmt::Print(p) => {
            lemma_eval_keeps(fuel, st, env, p.expr);
        },
        Stmt::VarDecl(d) => {
            lemma_var_decl_keeps(fuel, st, env, d);
        },
        Stmt::Block(b) => {
            lemma_seq_keeps(fuel, push_frame(st, env), st.frames.len() as int, b.stmts, 0, Val::Null);
        },
        Stmt::If(i) => {
            let (s1, c) = eval(fuel, st, env, i.condition);
            lemma_eval_keeps(fuel, st, env, i.condition);
            if let Some(t) = i.then_branch {
                lemma_exec_keeps(fuel, s1, env, *t);
            }
            if let Some(t) = i.else_branch {
                lemma_exec_keeps(fuel, s1, env, *t);
            }
        },
        Stmt::While(w) => {
            lemma_while_keeps(fuel, st, env, w);
        },
        Stmt::For(f) => {
            let nf = st.frames.len() as int;
            let (s1, r) = var_decl(fuel, push_frame(st, env), nf, f.placeholder);
            lemma_var_decl_keeps(fuel, push_frame(st, env), nf, f.placeholder);
            lemma_for_keeps(fuel, s1, nf, f, f.range.first());
        },
        Stmt::FnDecl(d) => {
            lemma_declare_keeps(st, env, d.name@, Val::Func(st.funcs.len() as usize));
        },
        Stmt::Return(r) => {
            if let Some(x) = r.value {
                lemma_eval_keeps(fuel, st, env, x);
            }
        },
    }
}

proof fn lemma_while_keeps(fuel: nat, st: State, env: int, w: WhileStmt)
    ensures
        keeps(st, while_loop(fuel, st, env, w).0, env),
    decreases fuel, expr_size(w.condition) + stmt_size(*w.body), 3int, 0int,
{
    if fuel > 0 {
        let (s1, c) = eval(fuel, st, env, w.condition);
        lemma_eval_keeps(fuel, st, env, w.condition);
        let (s2, r) = exec(fuel, s1, env, *w.body);
        lemma_exec_keeps(fuel, s1, env, *w.body);
        lemma_while_keeps((fuel - 1) as nat, s2, env, w);
    }
}

proof fn lemma_for_keeps(fuel: nat, st: State, frame: int, f: ForStmt, i: int)
    ensures
        keeps(st, for_loop(fuel, st, frame, f, i).0, frame),
    decreases fuel, stmt_size(*f.body), 3int, f.range.last() - i,
{
    if i <= f.range.last() && i >= i64::MIN {
        lemma_assign_keeps(st, frame, f.placeholder.name@, Val::Int(i as i64));
        if let Some(fs) = assign(st.frames, frame, f.placeholder.name@, Val::Int(i as i64)) {
            let s1 = State { frames: fs, ..st };
            let (s2, r) = exec(fuel, s1, frame, *f.body);
            lemma_exec_keeps(fuel, s1, frame, *f.body);
            if i < f.range.last() {
                lemma_for_keeps(fuel, s2, frame, f, i + 1);
            }
        }
    }
}

/// Block scoping: a name that the active frame's chain does not bind before
/// a block is still unbound after it, whatever the block declared.
pub proof fn lemma_block_scoping(fuel: nat, st: State, env: int, b: BlockStmt, n: Seq<char>)
    requires
        0 <= env < st.frames.len(),
        find(st.frames, env, n) is None,
    ensures
        find(exec(fuel, st, env, Stmt::Block(b)).0.frames, env, n) is None,
        lookup(exec(fuel, st, env, Stmt::Block(b)).0.frames, env, n) is None,
{
    let s2 = exec(fuel, st, env, Stmt::Block(b)).0;
    lemma_exec_keeps(fuel, st, env, Stmt::Block(b));
    lemma_seq_keeps(fuel, push_frame(st, env), st.frames.len() as int, b.stmts, 0, Val::Null);
    assert(keeps(st, s2, -1));
    lemma_find_kept(st, s2, env, n);
}

} // verus!
