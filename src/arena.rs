//! Well-formedness of the interpreter state: every frame has as many values
//! as names, a frame's parent comes before it in the arena, and every
//! closure captured a frame that exists; the globals frame is always there. Evaluation preserves it.
use vstd::prelude::*;
use crate::ast::{decl_size, expr_size, exprs_size, stmt_size, stmts_size, Expr, ForStmt, Stmt, VarDeclStmt, WhileStmt};
use crate::env::{assign, declare, find, FrameM};
use crate::scoping::{lemma_assign_keeps, lemma_eval_keeps, lemma_exec_keeps, lemma_find_bounds, lemma_var_decl_keeps};
use crate::semantics::{eval, eval_args, exec, exec_seq, for_loop, invoke, push_frame, run, var_decl, while_loop, Res, State};
use crate::value::Val;

verus! {

pub open spec fn wf(st: State) -> bool {
    &&& 0 < st.frames.len()
    &&& forall|g: int| 0 <= g < st.frames.len() ==> (#[trigger] st.frames[g]).names.len() == st.frames[g].vals.len()
    &&& forall|g: int| 0 <= g < st.frames.len() ==> match (#[trigger] st.frames[g]).parent {
        Some(p) => p < g,
        None => true,
    }
    &&& forall|j: int| 0 <= j < st.funcs.len() ==> (#[trigger] st.funcs[j]).env < st.frames.len()
}

proof fn lemma_assign_wf(st: State, f: int, n: Seq<char>, v: Val)
    requires
        wf(st),
    ensures
        assign(st.frames, f, n, v) matches Some(fs) ==> wf(State { frames: fs, ..st }),
{
    lemma_find_bounds(st.frames, f, n);
    if let Some(fs) = assign(st.frames, f, n, v) {
        let (g, k) = find(st.frames, f, n)->0;
        assert forall|h: int| 0 <= h < fs.len() implies (#[trigger] fs[h]).names.len() == fs[h].vals.len() && match fs[h].parent {
            Some(p) => p < h,
            None => true,
        } by {
            if h == g {
                assert(fs[h].vals.len() == st.frames[h].vals.len());
            } else {
                assert(fs[h] == st.frames[h]);
            }
        }
    }
}

proof fn lemma_declare_wf(st: State, f: int, n: Seq<char>, v: Val)
    requires
        wf(st),
    ensures
        declare(st.frames, f, n, v) matches Some(fs) ==> wf(State { frames: fs, ..st }),
{
}

proof fn lemma_eval_wf(fuel: nat, st: State, env: int, e: Expr)
    requires
        wf(st),
        0 <= env < st.frames.len(),
    ensures
        wf(eval(fuel, st, env, e).0),
    decreases fuel, expr_size(e), 2int, 0int,
{
    match e {
        Expr::Binary { left, right, .. } => {
            let (s1, l) = eval(fuel, st, env, *left);
            lemma_eval_wf(fuel, st, env, *left);
            lemma_eval_keeps(fuel, st, env, *left);
            lemma_eval_wf(fuel, s1, env, *right);
        },
        Expr::Assign { name, value, .. } => {
            let (s1, r) = eval(fuel, st, env, *value);
            lemma_eval_wf(fuel, st, env, *value);
            if let Res::Normal(v) = r {
                lemma_assign_wf(s1, env, name@, v);
            }
        },
        Expr::Grouping { expr, .. } => {
            lemma_eval_wf(fuel, st, env, *expr);
        },
        Expr::Unary { right, .. } => {
            lemma_eval_wf(fuel, st, env, *right);
        },
        Expr::Logical { left, right, .. } => {
            let (s1, l) = eval(fuel, st, env, *left);
            lemma_eval_wf(fuel, st, env, *left);
            lemma_eval_keeps(fuel, st, env, *left);
            lemma_eval_wf(fuel, s1, env, *right);
        },
        Expr::Call { callee, args, .. } => {
            let (s1, c) = eval(fuel, st, env, *callee);
            lemma_eval_wf(fuel, st, env, *callee);
            lemma_eval_keeps(fuel, st, env, *callee);
            if let Res::Normal(cv) = c {
                let (s2, a) = eval_args(fuel, s1, env, args, 0, Seq::empty());
                lemma_args_wf(fuel, s1, env, args, 0, Seq::empty());
                if let Ok(vals) = a {
                    lemma_invoke_wf(fuel, s2, cv, vals, e);
                }
            }
        },
        _ => {},
    }
}

proof fn lemma_args_wf(fuel: nat, st: State, env: int, args: Vec<Expr>, i: int, acc: Seq<Val>)
    requires
        wf(st),
        0 <= env < st.frames.len(),
    ensures
        wf(eval_args(fuel, st, env, args, i, acc).0),
    decreases fuel, exprs_size(args@, i), 3int, 0int,
{
    if 0 <= i < args.len() {
        let (s1, r) = eval(fuel, st, env, args@[i]);
        lemma_eval_wf(fuel, st, env, args@[i]);
        lemma_eval_keeps(fuel, st, env, args@[i]);
        if let Res::Normal(v) = r {
            lemma_args_wf(fuel, s1, env, args, i + 1, acc.push(v));
        }
    }
}

proof fn lemma_invoke_wf(fuel: nat, st: State, callee: Val, args: Seq<Val>, call: Expr)
    requires
        wf(st),
    ensures
        wf(invoke(fuel, st, callee, args, call).0),
    decreases fuel, expr_size(call), 1int, 0int,
{
    if let Val::Func(i) = callee {
        if i < st.funcs.len() && st.funcs[i as int].params.len() == args.len() && fuel > 0 {
            let c = st.funcs[i as int];
            let frame = FrameM { names: c.params, vals: args, parent: Some(c.env) };
            let s1 = State { frames: st.frames.push(frame), ..st };
            assert(wf(s1));
            lemma_seq_wf((fuel - 1) as nat, s1, st.frames.len() as int, c.body, 0, Val::Null);
        }
    }
}

proof fn lemma_seq_wf(fuel: nat, st: State, env: int, stmts: Vec<Stmt>, i: int, last: Val)
    requires
        wf(st),
        0 <= env < st.frames.len(),
    ensures
        wf(exec_seq(fuel, st, env, stmts, i, last).0),
    decreases fuel, stmts_size(stmts@, i), 3int, 0int,
{
    if 0 <= i < stmts.len() {
        let (s1, r) = exec(fuel, st, env, stmts@[i]);
        lemma_exec_wf(fuel, st, env, stmts@[i]);
        lemma_exec_keeps(fuel, st, env, stmts@[i]);
        if let Res::Normal(v) = r {
            lemma_seq_wf(fuel, s1, env, stmts, i + 1, v);
        }
    }
}

proof fn lemma_var_decl_wf(fuel: nat, st: State, env: int, d: VarDeclStmt)
    requires
        wf(st),
        0 <= env < st.frames.len(),
    ensures
        wf(var_decl(fuel, st, env, d).0),
    decreases fuel, decl_size(d), 2int, 0int,
{
    let (s1, r) = match d.value {
        Some(x) => eval(fuel, st, env, x),
        None => (st, Res::Normal(Val::Null)),
    };
    if let Some(x) = d.value {
        lemma_eval_wf(fuel, st, env, x);
    }
    if let Res::Normal(v) = r {
        lemma_declare_wf(s1, env, d.name@, v);
    }
}

proof fn lemma_exec_wf(fuel: nat, st: State, env: int, s: Stmt)
    requires
        wf(st),
        0 <= env < st.frames.len(),
    ensures
        wf(exec(fuel, st, env, s).0),
    decreases fuel, stmt_size(s), 2int, 0int,
{
    match s {
        Stmt::Expr(x) => {
            lemma_eval_wf(fuel, st, env, x.expr);
        },
        Stmt::Print(p) => {
            lemma_eval_wf(fuel, st, env, p.expr);
        },
        Stmt::VarDecl(d) => {
            lemma_var_decl_wf(fuel, st, env, d);
        },
        Stmt::Block(b) => {
            assert(wf(push_frame(st, env)));
            lemma_seq_wf(fuel, push_frame(st, env), st.frames.len() as int, b.stmts, 0, Val::Null);
        },
        Stmt::If(i) => {
            let (s1, c) = eval(fuel, st, env, i.condition);
            lemma_eval_wf(fuel, st, env, i.condition);
            lemma_eval_keeps(fuel, st, env, i.condition);
            if let Some(t) = i.then_branch {
                lemma_exec_wf(fuel, s1, env, *t);
            }
            if let Some(t) = i.else_branch {
                lemma_exec_wf(fuel, s1, env, *t);
            }
        },
        Stmt::While(w) => {
            lemma_while_wf(fuel, st, env, w);
        },
        Stmt::For(f) => {
            let nf = st.frames.len() as int;
            assert(wf(push_frame(st, env)));
            let (s1, r) = var_decl(fuel, push_frame(st, env), nf, f.placeholder);
            lemma_var_decl_wf(fuel, push_frame(st, env), nf, f.placeholder);
            lemma_var_decl_keeps(fuel, push_frame(st, env), nf, f.placeholder);
            lemma_for_wf(fuel, s1, nf, f, f.range.first());
        },
        Stmt::FnDecl(d) => {
            lemma_declare_wf(st, env, d.name@, Val::Func(st.funcs.len() as usize));
            let s2 = exec(fuel, st, env, s).0;
            if declare(st.frames, env, d.name@, Val::Func(st.funcs.len() as usize)) is Some {
                assert forall|j: int| 0 <= j < s2.funcs.len() implies (#[trigger] s2.funcs[j]).env < s2.frames.len() by {
                    if j < st.funcs.len() {
                        assert(s2.funcs[j] == st.funcs[j]);
                    }
                }
            }
        },
        Stmt::Return(r) => {
            if let Some(x) = r.value {
                lemma_eval_wf(fuel, st, env, x);
            }
        },
    }
}

proof fn lemma_while_wf(fuel: nat, st: State, env: int, w: WhileStmt)
    requires
        wf(st),
        0 <= env < st.frames.len(),
    ensures
        wf(while_loop(fuel, st, env, w).0),
    decreases fuel, expr_size(w.condition) + stmt_size(*w.body), 3int, 0int,
{
    if fuel > 0 {
        let (s1, c) = eval(fuel, st, env, w.condition);
        lemma_eval_wf(fuel, st, env, w.condition);
        lemma_eval_keeps(fuel, st, env, w.condition);
        let (s2, r) = exec(fuel, s1, env, *w.body);
        lemma_exec_wf(fuel, s1, env, *w.body);
        lemma_exec_keeps(fuel, s1, env, *w.body);
        lemma_while_wf((fuel - 1) as nat, s2, env, w);
    }
}

proof fn lemma_for_wf(fuel: nat, st: State, frame: int, f: ForStmt, i: int)
    requires
        wf(st),
        0 <= frame < st.frames.len(),
    ensures
        wf(for_loop(fuel, st, frame, f, i).0),
    decreases fuel, stmt_size(*f.body), 3int, f.range.last() - i,
{
    if i <= f.range.last() && i >= i64::MIN {
        lemma_assign_wf(st, frame, f.placeholder.name@, Val::Int(i as i64));
        lemma_assign_keeps(st, frame, f.placeholder.name@, Val::Int(i as i64));
        if let Some(fs) = assign(st.frames, frame, f.placeholder.name@, Val::Int(i as i64)) {
            let s1 = State { frames: fs, ..st };
            let (s2, r) = exec(fuel, s1, frame, *f.body);
            lemma_exec_wf(fuel, s1, frame, *f.body);
            lemma_exec_keeps(fuel, s1, frame, *f.body);
            if i < f.range.last() {
                lemma_for_wf(fuel, s2, frame, f, i + 1);
            }
        }
    }
}

/// Running a program keeps a well-formed state well-formed.
pub proof fn lemma_run_wf(fuel: nat, st: State, stmts: Vec<Stmt>)
    requires
        wf(st),
    ensures
        wf(run(fuel, st, stmts).0),
{
    lemma_seq_wf(fuel, st, 0, stmts, 0, Val::Null);
}

} // verus!
