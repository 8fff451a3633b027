//! Failures of evaluation, and the `return` signal that travels with them.
use vstd::prelude::*;
use crate::ast::{BinOp, Loc, UnOp};
use crate::value::{Val, Value};

verus! {

/// What went wrong. Names are those of the variable concerned.
#[derive(Debug, PartialEq)]
pub enum InterpErr {
    /// A binary operator applied to operands it has no entry for.
    OperationEvaluation(BinOp),
    BangOpOnNonBool,
    NegateNonNumeric,
    /// A prefix operator refused by the value model itself.
    Negation(UnOp),
    /// The name is already declared in the frame.
    VarDeclEnv(String),
    /// The name is bound in no frame of the chain (read).
    GetVarEnv(String),
    /// The name is bound in no frame of the chain (assignment).
    AssignEnv(String),
    UninitializedValue,
    NonBoolIfCond,
    NonBoolWhileCond,
    /// The loop's placeholder could not be reassigned.
    ForLoop(String),
    NonFnCall,
    /// Arity mismatch: expected, then given.
    WrongArgsNb(usize, usize),
    /// A failure inside the called function.
    FnCall(Box<InterpErr>),
    /// `return` reached the top level.
    Return(Value),
    /// The evaluation budget ran out.
    OutOfFuel,
}

/// A failure with the place of the node that raised it.
#[derive(Debug, PartialEq)]
pub struct RunError {
    pub err: InterpErr,
    pub loc: Option<Loc>,
}

/// The model of an `InterpErr`.
pub enum Fault {
    OperationEvaluation(BinOp),
    BangOpOnNonBool,
    NegateNonNumeric,
    Negation(UnOp),
    VarDeclEnv(Seq<char>),
    GetVarEnv(Seq<char>),
    AssignEnv(Seq<char>),
    UninitializedValue,
    NonBoolIfCond,
    NonBoolWhileCond,
    ForLoop(Seq<char>),
    NonFnCall,
    WrongArgsNb(usize, usize),
    FnCall(Box<Fault>),
    Return(Val),
    OutOfFuel,
}

/// The model of a `RunError`.
pub struct Failure {
    pub kind: Fault,
    pub loc: Option<Loc>,
}

impl View for InterpErr {
    type V = Fault;

    open spec fn view(&self) -> Fault
        decreases self,
    {
        match self {
            InterpErr::OperationEvaluation(op) => Fault::OperationEvaluation(*op),
            InterpErr::BangOpOnNonBool => Fault::BangOpOnNonBool,
            InterpErr::NegateNonNumeric => Fault::NegateNonNumeric,
            InterpErr::Negation(op) => Fault::Negation(*op),
            InterpErr::VarDeclEnv(n) => Fault::VarDeclEnv(n@),
            InterpErr::GetVarEnv(n) => Fault::GetVarEnv(n@),
            InterpErr::AssignEnv(n) => Fault::AssignEnv(n@),
            InterpErr::UninitializedValue => Fault::UninitializedValue,
            InterpErr::NonBoolIfCond => Fault::NonBoolIfCond,
            InterpErr::NonBoolWhileCond => Fault::NonBoolWhileCond,
            InterpErr::ForLoop(n) => Fault::ForLoop(n@),
            InterpErr::NonFnCall => Fault::NonFnCall,
            InterpErr::WrongArgsNb(a, b) => Fault::WrongArgsNb(*a, *b),
            InterpErr::FnCall(e) => Fault::FnCall(Box::new((**e).view())),
            InterpErr::Return(v) => Fault::Return(v@),
            InterpErr::OutOfFuel => Fault::OutOfFuel,
        }
    }
}

impl View for RunError {
    type V = Failure;

    open spec fn view(&self) -> Failure {
        Failure { kind: self.err@, loc: self.loc }
    }
}

impl RunError {
    pub fn new(err: InterpErr, loc: Option<Loc>) -> (r: RunError)
        ensures
            r.err == err,
            r.loc == loc,
    {
        RunError { err, loc }
    }
}

} // verus!
