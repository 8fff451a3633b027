//! The evaluator. Every method is proved to compute exactly what the
//! semantics in `semantics` prescribes for the model of the state.
use vstd::prelude::*;
use vstd::string::*;
use crate::ast::{
    Loc, LogicOp, UnOp, decl_size, expr_size, exprs_size, stmt_size, stmts_size, Expr, ForStmt, Stmt, VarDeclStmt,
    WhileStmt,
};
use crate::arena::{lemma_run_wf, wf};
use crate::env::{assign_var, declare_var, frames_view, get_var, names_view, Frame, FrameM};
use crate::error::{InterpErr, RunError};
use crate::semantics::{eval, eval_args, exec, exec_seq, invoke, run, var_decl, while_loop, for_loop, push_frame, with_frames, unary_result, ClosureM, Res, State};
use crate::value::{values_view, NativeFn, Val, Value};

verus! {

/// A user function: parameters, body, and the frame it closes over.
#[derive(Debug)]
pub struct Closure {
    pub params: Vec<String>,
    pub body: std::rc::Rc<Vec<Stmt>>,
    pub env: usize,
}

impl View for Closure {
    type V = ClosureM;

    open spec fn view(&self) -> ClosureM {
        ClosureM { params: names_view(self.params@), body: *self.body, env: self.env }
    }
}

pub open spec fn closures_view(v: Seq<Closure>) -> Seq<ClosureM> {
    v.map_values(|c: Closure| c@)
}

/// How a statement ended when it did not fail.
#[derive(Debug, PartialEq)]
pub enum Flow {
    Normal(Value),
    Returning(Value),
}

pub open spec fn outcome(r: Result<Flow, RunError>) -> Res {
    match r {
        Ok(Flow::Normal(v)) => Res::Normal(v@),
        Ok(Flow::Returning(v)) => Res::Returning(v@),
        Err(f) => Res::Failed(f@),
    }
}

pub open spec fn expr_outcome(r: Result<Value, RunError>) -> Res {
    match r {
        Ok(v) => Res::Normal(v@),
        Err(f) => Res::Failed(f@),
    }
}

/// The state at start: the globals frame (index 0) holds the native `clock`.
pub open spec fn initial_state() -> State {
    State {
        frames: seq![FrameM { names: seq!["clock"@], vals: seq![Val::Native(NativeFn::Clock)], parent: None }],
        funcs: Seq::empty(),
        printed: Seq::empty(),
        clock: 0,
    }
}

/// The evaluator's state: an arena of frames (index 0 is the globals), the
/// table of closures, the values printed so far, the host's clock reading and
/// the fuel granted to each run.
#[derive(Debug)]
pub struct Interpreter {
    pub frames: Vec<Frame>,
    pub funcs: Vec<Closure>,
    pub printed: Vec<Value>,
    pub clock: i64,
    pub fuel: u64,
}

impl View for Interpreter {
    type V = State;

    open spec fn view(&self) -> State {
        State {
            frames: frames_view(self.frames@),
            funcs: closures_view(self.funcs@),
            printed: values_view(self.printed@),
            clock: self.clock,
        }
    }
}

fn clone_names(v: &Vec<String>) -> (r: Vec<String>)
    ensures
        names_view(r@) == names_view(v@),
{
    let mut out: Vec<String> = Vec::new();
    let mut i: usize = 0;
    while i < v.len()
        invariant
            i <= v.len(),
            names_view(out@) == names_view(v@).subrange(0, i as int),
        decreases v.len() - i,
    {
        let ghost before = names_view(out@);
        let c = v[i].clone();
        out.push(c);
        assert(names_view(out@) =~= before.push(c@));
        assert(names_view(v@).subrange(0, i + 1) =~= names_view(v@).subrange(0, i as int).push(v@[i as int]@));
        i = i + 1;
    }
    assert(names_view(v@).subrange(0, v.len() as int) =~= names_view(v@));
    out
}

impl Interpreter {
    /// A fresh interpreter whose globals hold the native `clock`.
    pub fn new() -> (r: Interpreter)
        ensures
            r@ == initial_state(),
            wf(r@),
            r.fuel == u64::MAX,
    {
        let globals = Frame {
            names: vec![String::from_str("clock")],
            vals: vec![Value::Native(NativeFn::Clock)],
            parent: None,
        };
        let r = Interpreter { frames: vec![globals], funcs: Vec::new(), printed: Vec::new(), clock: 0, fuel: u64::MAX };
        assert(names_view(r.frames@[0].names@) =~= seq!["clock"@]);
        assert(values_view(r.frames@[0].vals@) =~= seq![Val::Native(NativeFn::Clock)]);
        assert(r@.frames =~= initial_state().frames);
        assert(r@.funcs =~= initial_state().funcs);
        assert(r@.printed =~= initial_state().printed);
        assert(r@.frames[0].names.len() == 1);
        r
    }

    /// Sets the reading that the native `clock` answers.
    pub fn set_clock(&mut self, reading: i64)
        ensures
            final(self)@ == (State { clock: reading, ..old(self)@ }),
            final(self).fuel == old(self).fuel,
    {
        self.clock = reading;
    }

    /// Sets the fuel granted to each run.
    pub fn set_fuel(&mut self, fuel: u64)
        ensures
            final(self)@ == old(self)@,
            final(self).fuel == fuel,
    {
        self.fuel = fuel;
    }

    /// Hands out the values printed so far, and forgets them.
    pub fn take_printed(&mut self) -> (r: Vec<Value>)
        ensures
            values_view(r@) == old(self)@.printed,
            final(self)@ == (State { printed: Seq::empty(), ..old(self)@ }),
            final(self).fuel == old(self).fuel,
    {
        let mut r: Vec<Value> = Vec::new();
        r.append(&mut self.printed);
        assert(values_view(self.printed@) =~= Seq::<Val>::empty());
        assert(r@ =~= old(self).printed@);
        r
    }

    fn push_frame(&mut self, fr: Frame)
        ensures
            final(self)@ == with_frames(old(self)@, old(self)@.frames.push(fr@)),
            final(self).fuel == old(self).fuel,
    {
        let ghost f = fr@;
        self.frames.push(fr);
        assert(frames_view(self.frames@) =~= frames_view(old(self).frames@).push(f));
    }

    fn push_empty_frame(&mut self, parent: usize) -> (nf: usize)
        ensures
            final(self)@ == push_frame(old(self)@, parent as int),
            nf == old(self)@.frames.len(),
            final(self).fuel == old(self).fuel,
    {
        let nf = self.frames.len();
        let fr = Frame { names: Vec::new(), vals: Vec::new(), parent: Some(parent) };
        assert(fr@.names =~= Seq::<Seq<char>>::empty());
        assert(fr@.vals =~= Seq::<Val>::empty());
        self.push_frame(fr);
        nf
    }

    /// Runs a whole program in the globals frame with the interpreter's fuel.
    pub fn interpret(&mut self, nodes: &Vec<Stmt>) -> (r: Result<Value, RunError>)
        ensures
            (final(self)@, expr_outcome(r)) == run(old(self).fuel as nat, old(self)@, *nodes),
            wf(old(self)@) ==> wf(final(self)@),
            final(self).fuel == old(self).fuel,
    {
        proof {
            if wf(self@) {
                lemma_run_wf(self.fuel as nat, self@, *nodes);
            }
        }
        match self.exec_seq(self.fuel, 0, nodes) {
            Ok(Flow::Normal(v)) => Ok(v),
            Ok(Flow::Returning(v)) => Err(RunError::new(InterpErr::Return(v), None)),
            Err(f) => Err(f),
        }
    }

    /// Runs `stmts` in a new frame whose parent is `parent`; the result is that
    /// of the last statement, or the first `Returning` or failure.
    pub fn execute_block_stmt(&mut self, stmts: &Vec<Stmt>, parent: usize) -> (r: Result<Flow, RunError>)
        ensures
            (final(self)@, outcome(r)) == exec_seq(
                old(self).fuel as nat,
                push_frame(old(self)@, parent as int),
                old(self)@.frames.len() as int,
                *stmts,
                0,
                Val::Null,
            ),
            final(self).fuel == old(self).fuel,
    {
        let nf = self.push_empty_frame(parent);
        self.exec_seq(self.fuel, nf, stmts)
    }
}

proof fn lemma_stmts_size_suffix(ss: Seq<Stmt>, i: int, j: int)
    requires
        0 <= i <= j,
    ensures
        stmts_size(ss, j) <= stmts_size(ss, i),
        0 <= j < ss.len() ==> stmt_size(ss[j]) < stmts_size(ss, i),
    decreases j - i,
{
    if i < j {
        lemma_stmts_size_suffix(ss, i + 1, j);
    }
}

impl Interpreter {
    fn eval(&mut self, fuel: u64, env: usize, e: &Expr) -> (r: Result<Value, RunError>)
        ensures
            (final(self)@, expr_outcome(r)) == eval(fuel as nat, old(self)@, env as int, *e),
            final(self).fuel == old(self).fuel,
        decreases fuel, expr_size(*e), 2int, 0int,
    {
        match e {
            Expr::Binary { left, op, right, loc } => {
                let lv = match self.eval(fuel, env, left) {
                    Ok(v) => v,
                    Err(f) => return Err(f),
                };
                if lv.is_null() {
                    return Err(RunError::new(InterpErr::UninitializedValue, Some(left.get_loc())));
                }
                let rv = match self.eval(fuel, env, right) {
                    Ok(v) => v,
                    Err(f) => return Err(f),
                };
                if rv.is_null() {
                    return Err(RunError::new(InterpErr::UninitializedValue, Some(right.get_loc())));
                }
                match lv.operate(&rv, *op) {
                    Some(v) => Ok(v),
                    None => Err(RunError::new(InterpErr::OperationEvaluation(*op), Some(*loc))),
                }
            },
            Expr::Assign { name, value, loc } => {
                let v = match self.eval(fuel, env, value) {
                    Ok(v) => v,
                    Err(f) => return Err(f),
                };
                if assign_var(&mut self.frames, env, name, v) {
                    Ok(Value::Null)
                } else {
                    Err(RunError::new(InterpErr::AssignEnv(name.clone()), Some(*loc)))
                }
            },
            Expr::Grouping { expr, .. } => self.eval(fuel, env, expr),
            Expr::IntLiteral { value, .. } => Ok(Value::Int(*value)),
            Expr::StrLiteral { value, .. } => Ok(Value::Str(value.clone())),
            Expr::Identifier { name, loc } => {
                if name.eq(&String::from_str("true")) {
                    Ok(Value::Bool(true))
                } else if name.eq(&String::from_str("false")) {
                    Ok(Value::Bool(false))
                } else if name.eq(&String::from_str("null")) {
                    Ok(Value::Null)
                } else {
                    match get_var(&self.frames, env, name) {
                        Some(v) => Ok(v),
                        None => Err(RunError::new(InterpErr::GetVarEnv(name.clone()), Some(*loc))),
                    }
                }
            },
            Expr::Unary { op, right, loc } => {
                let v = match self.eval(fuel, env, right) {
                    Ok(v) => v,
                    Err(f) => return Err(f),
                };
                Self::unary(v, *op, *loc)
            },
            Expr::Logical { left, op, right, loc } => {
                let lv = match self.eval(fuel, env, left) {
                    Ok(v) => v,
                    Err(f) => return Err(f),
                };
                match lv {
                    Value::Bool(b) => {
                        if (*op == LogicOp::Or && b) || (*op == LogicOp::And && !b) {
                            Ok(lv)
                        } else {
                            self.eval(fuel, env, right)
                        }
                    },
                    _ => Err(RunError::new(InterpErr::NonBoolIfCond, Some(*loc))),
                }
            },
            Expr::Call { callee, args, .. } => {
                let cv = match self.eval(fuel, env, callee) {
                    Ok(v) => v,
                    Err(f) => return Err(f),
                };
                let acc: Vec<Value> = Vec::new();
                assert(values_view(acc@) =~= Seq::<Val>::empty());
                let vals = match self.eval_args(fuel, env, args, 0, acc) {
                    Ok(v) => v,
                    Err(f) => return Err(f),
                };
                self.invoke(fuel, cv, vals, e)
            },
        }
    }

    fn unary(v: Value, op: UnOp, loc: Loc) -> (r: Result<Value, RunError>)
        ensures
            expr_outcome(r) == unary_result(v@, op, loc),
    {
        match (&v, op) {
            (Value::Int(_), UnOp::Not) => Err(RunError::new(InterpErr::BangOpOnNonBool, Some(loc))),
            (Value::Bool(_), UnOp::Neg) => Err(RunError::new(InterpErr::NegateNonNumeric, Some(loc))),
            (Value::Str(_), UnOp::Neg) => Err(RunError::new(InterpErr::NegateNonNumeric, Some(loc))),
            (Value::Null, UnOp::Neg) => Err(RunError::new(InterpErr::NegateNonNumeric, Some(loc))),
            _ => match v.negate(op) {
                Some(x) => Ok(x),
                None => Err(RunError::new(InterpErr::Negation(op), Some(loc))),
            },
        }
    }

    fn eval_args(&mut self, fuel: u64, env: usize, args: &Vec<Expr>, i: usize, acc: Vec<Value>) -> (r: Result<Vec<Value>, RunError>)
        ensures
            ({
                let (s, a) = eval_args(fuel as nat, old(self)@, env as int, *args, i as int, values_view(acc@));
                &&& final(self)@ == s
                &&& match (r, a) {
                    (Ok(x), Ok(y)) => values_view(x@) == y,
                    (Err(x), Err(y)) => x@ == y,
                    _ => false,
                }
            }),
            final(self).fuel == old(self).fuel,
        decreases fuel, exprs_size(args@, i as int), 3int, 0int,
    {
        if i >= args.len() {
            return Ok(acc);
        }
        match self.eval(fuel, env, &args[i]) {
            Ok(v) => {
                let mut acc = acc;
                let ghost old_acc = values_view(acc@);
                let ghost vv = v@;
                acc.push(v);
                assert(values_view(acc@) =~= old_acc.push(vv));
                self.eval_args(fuel, env, args, i + 1, acc)
            },
            Err(f) => Err(f),
        }
    }

    fn invoke(&mut self, fuel: u64, callee: Value, args: Vec<Value>, call: &Expr) -> (r: Result<Value, RunError>)
        ensures
            (final(self)@, expr_outcome(r)) == invoke(fuel as nat, old(self)@, callee@, values_view(args@), *call),
            final(self).fuel == old(self).fuel,
        decreases fuel, expr_size(*call), 1int, 0int,
    {
        let loc = call.get_loc();
        match callee {
            Value::Func(i) => {
                if i < self.funcs.len() {
                    let n = self.funcs[i].params.len();
                    if n != args.len() {
                        return Err(RunError::new(InterpErr::WrongArgsNb(n, args.len()), Some(loc)));
                    }
                    if fuel == 0 {
                        return Err(RunError::new(InterpErr::OutOfFuel, Some(loc)));
                    }
                    let params = clone_names(&self.funcs[i].params);
                    let body = self.funcs[i].body.clone();
                    let cenv = self.funcs[i].env;
                    let nf = self.frames.len();
                    self.push_frame(Frame { names: params, vals: args, parent: Some(cenv) });
                    match self.exec_seq(fuel - 1, nf, &*body) {
                        Ok(Flow::Normal(_)) => Ok(Value::Null),
                        Ok(Flow::Returning(v)) => Ok(v),
                        Err(f) => Err(RunError::new(InterpErr::FnCall(Box::new(f.err)), Some(loc))),
                    }
                } else {
                    Err(RunError::new(InterpErr::NonFnCall, Some(loc)))
                }
            },
            Value::Native(NativeFn::Clock) => {
                if args.len() != 0 {
                    Err(RunError::new(InterpErr::WrongArgsNb(0, args.len()), Some(loc)))
                } else {
                    Ok(Value::Int(self.clock))
                }
            },
            _ => Err(RunError::new(InterpErr::NonFnCall, Some(loc))),
        }
    }

    fn exec_seq(&mut self, fuel: u64, env: usize, stmts: &Vec<Stmt>) -> (r: Result<Flow, RunError>)
        ensures
            (final(self)@, outcome(r)) == exec_seq(fuel as nat, old(self)@, env as int, *stmts, 0, Val::Null),
            final(self).fuel == old(self).fuel,
        decreases fuel, stmts_size(stmts@, 0), 3int, 0int,
    {
        let ghost target = exec_seq(fuel as nat, self@, env as int, *stmts, 0, Val::Null);
        let mut last = Value::Null;
        let mut i: usize = 0;
        while i < stmts.len()
            invariant
                i <= stmts.len(),
                exec_seq(fuel as nat, self@, env as int, *stmts, i as int, last@) == target,
                target == exec_seq(fuel as nat, old(self)@, env as int, *stmts, 0, Val::Null),
                self.fuel == old(self).fuel,
            decreases stmts.len() - i,
        {
            proof {
                lemma_stmts_size_suffix(stmts@, 0, i as int);
            }
            match self.exec(fuel, env, &stmts[i]) {
                Ok(Flow::Normal(v)) => {
                    last = v;
                },
                other => {
                    return other;
                },
            }
            i = i + 1;
        }
        Ok(Flow::Normal(last))
    }

    fn var_decl(&mut self, fuel: u64, env: usize, d: &VarDeclStmt) -> (r: Result<Flow, RunError>)
        ensures
            (final(self)@, outcome(r)) == var_decl(fuel as nat, old(self)@, env as int, *d),
            final(self).fuel == old(self).fuel,
        decreases fuel, decl_size(*d), 2int, 0int,
    {
        let v = match &d.value {
            Some(x) => match self.eval(fuel, env, x) {
                Ok(v) => v,
                Err(f) => return Err(f),
            },
            None => Value::Null,
        };
        if declare_var(&mut self.frames, env, d.name.clone(), v) {
            Ok(Flow::Normal(Value::Null))
        } else {
            Err(RunError::new(InterpErr::VarDeclEnv(d.name.clone()), Some(d.loc)))
        }
    }

    fn exec(&mut self, fuel: u64, env: usize, s: &Stmt) -> (r: Result<Flow, RunError>)
        ensures
            (final(self)@, outcome(r)) == exec(fuel as nat, old(self)@, env as int, *s),
            final(self).fuel == old(self).fuel,
        decreases fuel, stmt_size(*s), 2int, 0int,
    {
        match s {
            Stmt::Expr(x) => match self.eval(fuel, env, &x.expr) {
                Ok(v) => Ok(Flow::Normal(v)),
                Err(f) => Err(f),
            },
            Stmt::Print(p) => match self.eval(fuel, env, &p.expr) {
                Ok(v) => {
                    let ghost old_p = values_view(self.printed@);
                    let ghost vv = v@;
                    self.printed.push(v);
                    assert(values_view(self.printed@) =~= old_p.push(vv));
                    Ok(Flow::Normal(Value::Null))
                },
                Err(f) => Err(f),
            },
            Stmt::VarDecl(d) => self.var_decl(fuel, env, d),
            Stmt::Block(b) => {
                let nf = self.push_empty_frame(env);
                match self.exec_seq(fuel, nf, &b.stmts) {
                    Ok(Flow::Normal(_)) => Ok(Flow::Normal(Value::Null)),
                    other => other,
                }
            },
            Stmt::If(i) => {
                let c = match self.eval(fuel, env, &i.condition) {
                    Ok(v) => v,
                    Err(f) => return Err(f),
                };
                match c {
                    Value::Bool(true) => match &i.then_branch {
                        Some(t) => self.exec(fuel, env, t),
                        None => Ok(Flow::Normal(Value::Null)),
                    },
                    Value::Bool(false) => match &i.else_branch {
                        Some(t) => self.exec(fuel, env, t),
                        None => Ok(Flow::Normal(Value::Null)),
                    },
                    _ => Err(RunError::new(InterpErr::NonBoolIfCond, Some(i.loc))),
                }
            },
            Stmt::While(w) => self.while_loop(fuel, env, w),
            Stmt::For(f) => self.for_stmt(fuel, env, f),
            Stmt::FnDecl(d) => {
                let idx = self.funcs.len();
                if declare_var(&mut self.frames, env, d.name.clone(), Value::Func(idx)) {
                    let c = Closure { params: clone_names(&d.params), body: d.body.clone(), env };
                    let ghost old_f = closures_view(self.funcs@);
                    let ghost cv = c@;
                    self.funcs.push(c);
                    assert(closures_view(self.funcs@) =~= old_f.push(cv));
                    Ok(Flow::Normal(Value::Null))
                } else {
                    Err(RunError::new(InterpErr::VarDeclEnv(d.name.clone()), Some(d.loc)))
                }
            },
            Stmt::Return(r) => {
                let v = match &r.value {
                    Some(x) => match self.eval(fuel, env, x) {
                        Ok(v) => v,
                        Err(f) => return Err(f),
                    },
                    None => Value::Null,
                };
                Ok(Flow::Returning(v))
            },
        }
    }

    fn while_loop(&mut self, fuel: u64, env: usize, w: &WhileStmt) -> (r: Result<Flow, RunError>)
        ensures
            (final(self)@, outcome(r)) == while_loop(fuel as nat, old(self)@, env as int, *w),
            final(self).fuel == old(self).fuel,
        decreases fuel, expr_size(w.condition) + stmt_size(*w.body), 3int, 0int,
    {
        let ghost target = while_loop(fuel as nat, self@, env as int, *w);
        let mut f = fuel;
        loop
            invariant
                f <= fuel,
                while_loop(f as nat, self@, env as int, *w) == target,
                target == while_loop(fuel as nat, old(self)@, env as int, *w),
                self.fuel == old(self).fuel,
            decreases f,
        {
            if f == 0 {
                return Err(RunError::new(InterpErr::OutOfFuel, Some(w.loc)));
            }
            let c = match self.eval(f, env, &w.condition) {
                Ok(v) => v,
                Err(e) => return Err(e),
            };
            match c {
                Value::Bool(true) => {
                    match self.exec(f, env, &w.body) {
                        Ok(Flow::Normal(_)) => {},
                        other => return other,
                    }
                },
                Value::Bool(false) => return Ok(Flow::Normal(Value::Null)),
                _ => return Err(RunError::new(InterpErr::NonBoolWhileCond, Some(w.loc))),
            }
            f = f - 1;
        }
    }

    fn for_stmt(&mut self, fuel: u64, env: usize, f: &ForStmt) -> (r: Result<Flow, RunError>)
        ensures
            (final(self)@, outcome(r)) == exec(fuel as nat, old(self)@, env as int, Stmt::For(*f)),
            final(self).fuel == old(self).fuel,
        decreases fuel, 1 + decl_size(f.placeholder) + stmt_size(*f.body), 1int, 0int,
    {
        let nf = self.push_empty_frame(env);
        match self.var_decl(fuel, nf, &f.placeholder) {
            Ok(Flow::Normal(_)) => {},
            other => return other,
        }
        let ghost target = for_loop(fuel as nat, self@, nf as int, *f, f.range.first());
        assert(target == exec(fuel as nat, old(self)@, env as int, Stmt::For(*f)));
        let first: i64 = match f.range.end {
            Some(_) => f.range.start,
            None => 0,
        };
        let last: i64 = match f.range.end {
            Some(e) => e,
            None => f.range.start,
        };
        if first > last {
            return Ok(Flow::Normal(Value::Null));
        }
        let mut i = first;
        loop
            invariant
                first <= i <= last,
                last == f.range.last(),
                for_loop(fuel as nat, self@, nf as int, *f, i as int) == target,
                target == exec(fuel as nat, old(self)@, env as int, Stmt::For(*f)),
                self.fuel == old(self).fuel,
            decreases last - i,
        {
            if !assign_var(&mut self.frames, nf, &f.placeholder.name, Value::Int(i)) {
                return Err(RunError::new(InterpErr::ForLoop(f.placeholder.name.clone()), Some(f.loc)));
            }
            match self.exec(fuel, nf, &f.body) {
                Ok(Flow::Normal(_)) => {},
                other => return other,
            }
            if i == last {
                return Ok(Flow::Normal(Value::Null));
            }
            i = i + 1;
        }
    }
}

} // verus!
