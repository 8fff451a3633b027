//! Runtime values and the operators defined on them.
use vstd::prelude::*;
use crate::ast::{BinOp, UnOp};

verus! {

/// Capabilities supplied by the host rather than written in the language.
#[derive(Clone, Copy, Debug, PartialEq, Eq, Structural)]
pub enum NativeFn {
    /// A clock reading: no arguments, answers the host's current reading.
    Clock,
}

/// A runtime value. A user function is a handle into the interpreter's table
/// of closures.
#[derive(Clone, Debug, PartialEq)]
pub enum Value {
    Null,
    Int(i64),
    Str(String),
    Bool(bool),
    Func(usize),
    Native(NativeFn),
}

/// The mathematical model of a value.
pub enum Val {
    Null,
    Int(i64),
    Str(Seq<char>),
    Bool(bool),
    Func(usize),
    Native(NativeFn),
}

impl View for Value {
    type V = Val;

    open spec fn view(&self) -> Val {
        match self {
            Value::Null => Val::Null,
            Value::Int(n) => Val::Int(*n),
            Value::Str(s) => Val::Str(s@),
            Value::Bool(b) => Val::Bool(*b),
            Value::Func(i) => Val::Func(*i),
            Value::Native(n) => Val::Native(*n),
        }
    }
}

pub open spec fn values_view(v: Seq<Value>) -> Seq<Val> {
    v.map_values(|x: Value| x@)
}

pub open spec fn in_i64(x: int) -> bool {
    i64::MIN <= x <= i64::MAX
}

/// `s` written `n` times in a row.
pub open spec fn repeat(s: Seq<char>, n: nat) -> Seq<char>
    decreases n,
{
    if n == 0 {
        Seq::empty()
    } else {
        repeat(s, (n - 1) as nat) + s
    }
}

/// Division that rounds toward zero, as integer division does on machine integers.
pub open spec fn trunc_div(a: int, b: int) -> int {
    let q = abs(a) / abs(b);
    if (a < 0) != (b < 0) { -q } else { q }
}

pub open spec fn abs(a: int) -> int {
    if a < 0 { -a } else { a }
}

pub open spec fn int_result(x: int) -> Option<Val> {
    if in_i64(x) { Some(Val::Int(x as i64)) } else { None }
}

pub open spec fn compare(a: int, b: int, op: BinOp) -> Option<Val> {
    match op {
        BinOp::Eq => Some(Val::Bool(a == b)),
        BinOp::NotEq => Some(Val::Bool(a != b)),
        BinOp::Less => Some(Val::Bool(a < b)),
        BinOp::LessEq => Some(Val::Bool(a <= b)),
        BinOp::Greater => Some(Val::Bool(a > b)),
        BinOp::GreaterEq => Some(Val::Bool(a >= b)),
        _ => None,
    }
}

/// The operator table: `None` is an operation error.
/// Integers take the four arithmetic operators (an overflow or a division by
/// zero is an error) and the six comparisons; `+` concatenates two strings;
/// `*` repeats a string by a non-negative count given on either side; `==` and
/// `!=` also compare two strings or two booleans.
pub open spec fn operate_spec(l: Val, r: Val, op: BinOp) -> Option<Val> {
    match (l, r) {
        (Val::Int(a), Val::Int(b)) => match op {
            BinOp::Add => int_result(a + b),
            BinOp::Sub => int_result(a - b),
            BinOp::Mul => int_result(a * b),
            BinOp::Div => if b == 0 { None } else { int_result(trunc_div(a as int, b as int)) },
            _ => compare(a as int, b as int, op),
        },
        (Val::Str(a), Val::Str(b)) => match op {
            BinOp::Add => Some(Val::Str(a + b)),
            BinOp::Eq => Some(Val::Bool(a == b)),
            BinOp::NotEq => Some(Val::Bool(a != b)),
            _ => None,
        },
        (Val::Str(s), Val::Int(n)) => if op == BinOp::Mul && n >= 0 {
            Some(Val::Str(repeat(s, n as nat)))
        } else {
            None
        },
        (Val::Int(n), Val::Str(s)) => if op == BinOp::Mul && n >= 0 {
            Some(Val::Str(repeat(s, n as nat)))
        } else {
            None
        },
        (Val::Bool(a), Val::Bool(b)) => match op {
            BinOp::Eq => Some(Val::Bool(a == b)),
            BinOp::NotEq => Some(Val::Bool(a != b)),
            _ => None,
        },
        _ => None,
    }
}

/// `-` on an integer (its negation must fit) and `!` on a boolean.
pub open spec fn negate_spec(v: Val, op: UnOp) -> Option<Val> {
    match (v, op) {
        (Val::Int(n), UnOp::Neg) => int_result(-n),
        (Val::Bool(b), UnOp::Not) => Some(Val::Bool(!b)),
        _ => None,
    }
}

/// The magnitude of `a` as an unsigned integer.
fn magnitude(a: i64) -> (r: u64)
    ensures
        r as int == abs(a as int),
{
    if a >= 0 {
        a as u64
    } else {
        ((-(a + 1)) as u64) + 1
    }
}

fn divide(a: i64, b: i64) -> (r: Option<i64>)
    requires
        b != 0,
    ensures
        r matches Some(q) ==> q as int == trunc_div(a as int, b as int),
        r is None <==> !in_i64(trunc_div(a as int, b as int)),
{
    let q = magnitude(a) / magnitude(b);
    proof {
        assert(q as int == abs(a as int) / abs(b as int));
        assert(abs(a as int) / abs(b as int) <= abs(a as int)) by (nonlinear_arith)
            requires abs(b as int) >= 1, abs(a as int) >= 0;
    }
    if (a < 0) != (b < 0) {
        if q == 0x8000_0000_0000_0000u64 {
            Some(i64::MIN)
        } else {
            Some(-(q as i64))
        }
    } else if q <= i64::MAX as u64 {
        Some(q as i64)
    } else {
        None
    }
}

fn repeat_str(s: &String, n: i64) -> (r: String)
    requires
        n >= 0,
    ensures
        r@ == repeat(s@, n as nat),
{
    let mut out = String::new();
    let mut i: i64 = 0;
    while i < n
        invariant
            0 <= i <= n,
            out@ == repeat(s@, i as nat),
        decreases n - i,
    {
        out.append(s.as_str());
        i = i + 1;
    }
    out
}

impl Value {
    /// The value copied, with the same model.
    pub fn copy(&self) -> (r: Value)
        ensures
            r@ == self@,
    {
        match self {
            Value::Null => Value::Null,
            Value::Int(n) => Value::Int(*n),
            Value::Str(s) => Value::Str(s.clone()),
            Value::Bool(b) => Value::Bool(*b),
            Value::Func(i) => Value::Func(*i),
            Value::Native(n) => Value::Native(*n),
        }
    }

    pub fn is_null(&self) -> (r: bool)
        ensures
            r == (self@ == Val::Null),
    {
        match self {
            Value::Null => true,
            _ => false,
        }
    }

    /// Applies a binary operator; `None` where the operator table has no entry.
    pub fn operate(&self, other: &Value, op: BinOp) -> (r: Option<Value>)
        ensures
            r matches Some(v) ==> operate_spec(self@, other@, op) == Some(v@),
            r is None <==> operate_spec(self@, other@, op) is None,
    {
        match (self, other) {
            (Value::Int(a), Value::Int(b)) => {
                let (a, b) = (*a, *b);
                match op {
                    BinOp::Add => match a.checked_add(b) {
                        Some(x) => Some(Value::Int(x)),
                        None => None,
                    },
                    BinOp::Sub => match a.checked_sub(b) {
                        Some(x) => Some(Value::Int(x)),
                        None => None,
                    },
                    BinOp::Mul => match a.checked_mul(b) {
                        Some(x) => Some(Value::Int(x)),
                        None => None,
                    },
                    BinOp::Div => if b == 0 {
                        None
                    } else {
                        match divide(a, b) {
                            Some(x) => Some(Value::Int(x)),
                            None => None,
                        }
                    },
                    BinOp::Eq => Some(Value::Bool(a == b)),
                    BinOp::NotEq => Some(Value::Bool(a != b)),
                    BinOp::Less => Some(Value::Bool(a < b)),
                    BinOp::LessEq => Some(Value::Bool(a <= b)),
                    BinOp::Greater => Some(Value::Bool(a > b)),
                    BinOp::GreaterEq => Some(Value::Bool(a >= b)),
                }
            },
            (Value::Str(a), Value::Str(b)) => match op {
                BinOp::Add => {
                    let mut s = a.clone();
                    s.append(b.as_str());
                    Some(Value::Str(s))
                },
                BinOp::Eq => Some(Value::Bool(a.eq(b))),
                BinOp::NotEq => Some(Value::Bool(!a.eq(b))),
                _ => None,
            },
            (Value::Str(s), Value::Int(n)) => if op == BinOp::Mul && *n >= 0 {
                Some(Value::Str(repeat_str(s, *n)))
            } else {
                None
            },
            (Value::Int(n), Value::Str(s)) => if op == BinOp::Mul && *n >= 0 {
                Some(Value::Str(repeat_str(s, *n)))
            } else {
                None
            },
            (Value::Bool(a), Value::Bool(b)) => match op {
                BinOp::Eq => Some(Value::Bool(*a == *b)),
                BinOp::NotEq => Some(Value::Bool(*a != *b)),
                _ => None,
            },
            _ => None,
        }
    }

    /// Applies a prefix operator; `None` where it does not apply.
    pub fn negate(&self, op: UnOp) -> (r: Option<Value>)
        ensures
            r matches Some(v) ==> negate_spec(self@, op) == Some(v@),
            r is None <==> negate_spec(self@, op) is None,
    {
        match (self, op) {
            (Value::Int(n), UnOp::Neg) => if *n == i64::MIN {
                None
            } else {
                Some(Value::Int(-*n))
            },
            (Value::Bool(b), UnOp::Not) => Some(Value::Bool(!*b)),
            _ => None,
        }
    }
}

} // verus!
