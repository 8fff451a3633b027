//! General properties of the language, proved over the semantics.
use vstd::prelude::*;
use crate::ast::{BinOp, Expr, IfStmt, Loc, LogicOp, Stmt};
use crate::env::find;
use crate::error::Fault;
use crate::semantics::{eval, exec, fail, invoke, Res, State};
use crate::value::{operate_spec, repeat, Val};

verus! {

/// Repeating a string by a count gives the same result with the operands
/// in either order.
pub proof fn lemma_repeat_either_order(s: Seq<char>, n: i64)
    ensures
        operate_spec(Val::Str(s), Val::Int(n), BinOp::Mul) == operate_spec(Val::Int(n), Val::Str(s), BinOp::Mul),
        n >= 0 ==> operate_spec(Val::Str(s), Val::Int(n), BinOp::Mul) == Some(Val::Str(repeat(s, n as nat))),
{
}

/// Adding an integer to a string is an operation error.
pub proof fn lemma_str_plus_int_fails(s: Seq<char>, n: i64)
    ensures
        operate_spec(Val::Str(s), Val::Int(n), BinOp::Add) is None,
        operate_spec(Val::Int(n), Val::Str(s), BinOp::Add) is None,
{
}

/// A binary operation whose left operand evaluates to null fails with the
/// uninitialized-value error at the left operand, and the right operand is
/// never evaluated.
pub proof fn lemma_null_left_operand(fuel: nat, st: State, env: int, left: Expr, op: BinOp, right: Expr, loc: Loc, s1: State)
    requires
        eval(fuel, st, env, left) == (s1, Res::Normal(Val::Null)),
    ensures
        eval(fuel, st, env, Expr::Binary { left: Box::new(left), op, right: Box::new(right), loc })
            == (s1, fail(Fault::UninitializedValue, left.loc_of())),
{
}

/// Assigning to a name that no frame of the chain binds fails with the
/// unresolved-name error, once the right-hand side has been evaluated.
pub proof fn lemma_assign_unbound(fuel: nat, st: State, env: int, name: String, value: Expr, loc: Loc, s1: State, v: Val)
    requires
        eval(fuel, st, env, value) == (s1, Res::Normal(v)),
        find(s1.frames, env, name@) is None,
    ensures
        eval(fuel, st, env, Expr::Assign { name, value: Box::new(value), loc })
            == (s1, fail(Fault::AssignEnv(name@), loc)),
{
}

/// An `if` whose condition is not a boolean fails.
pub proof fn lemma_if_non_bool(fuel: nat, st: State, env: int, i: IfStmt, s1: State, v: Val)
    requires
        eval(fuel, st, env, i.condition) == (s1, Res::Normal(v)),
        !(v is Bool),
    ensures
        exec(fuel, st, env, Stmt::If(i)) == (s1, fail(Fault::NonBoolIfCond, i.loc)),
{
}

/// An `if` whose selected branch is absent does nothing beyond evaluating
/// its condition.
pub proof fn lemma_if_absent_branch(fuel: nat, st: State, env: int, i: IfStmt, s1: State, b: bool)
    requires
        eval(fuel, st, env, i.condition) == (s1, Res::Normal(Val::Bool(b))),
        b ==> i.then_branch is None,
        !b ==> i.else_branch is None,
    ensures
        exec(fuel, st, env, Stmt::If(i)) == (s1, Res::Normal(Val::Null)),
{
}

/// `and` with a false left operand, and `or` with a true one, return the left
/// value; the right operand is not evaluated, so it has no effect on the state.
pub proof fn lemma_short_circuit(fuel: nat, st: State, env: int, left: Expr, op: LogicOp, right: Expr, loc: Loc, s1: State, b: bool)
    requires
        eval(fuel, st, env, left) == (s1, Res::Normal(Val::Bool(b))),
        (op == LogicOp::And && !b) || (op == LogicOp::Or && b),
    ensures
        eval(fuel, st, env, Expr::Logical { left: Box::new(left), op, right: Box::new(right), loc })
            == (s1, Res::Normal(Val::Bool(b))),
{
}

/// Calling a user function with a number of arguments other than its number
/// of parameters fails with both counts, and changes nothing.
pub proof fn lemma_arity_mismatch(fuel: nat, st: State, i: usize, args: Seq<Val>, call: Expr)
    requires
        i < st.funcs.len(),
        st.funcs[i as int].params.len() != args.len(),
    ensures
        invoke(fuel, st, Val::Func(i), args, call) == (st, fail(
            Fault::WrongArgsNb(st.funcs[i as int].params.len() as usize, args.len() as usize),
            call.loc_of(),
        )),
{
}

} // verus!
