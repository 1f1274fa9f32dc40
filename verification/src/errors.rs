//! Error values for the two failure classes: recoverable declaration errors
//! raised while the program representation is built, and fatal evaluation
//! errors raised while it runs.
use vstd::prelude::*;
use crate::scanner::Type;

verus! {

/// A recoverable declaration error: a duplicate symbol or malformed syntax.
#[derive(Debug)]
pub struct ProgramError {
    pub message: String,
}

/// A recoverable declaration error: a declared type disagrees with the
/// computed type of an expression.
#[derive(Debug)]
pub struct TypeError {
    pub message: String,
    pub expected: Type,
    pub found: Type,
}

/// A declaration-time error: a symbol or syntax problem, or a type
/// disagreement. Either aborts program loading; no partial program runs.
#[derive(Debug)]
pub enum AstError {
    Program(ProgramError),
    Type(TypeError),
}

impl View for AstError {
    type V = crate::semantics::AstErrV;

    open spec fn view(&self) -> crate::semantics::AstErrV {
        crate::semantics::ast_err_view(*self)
    }
}

/// A fatal evaluation error. Any of these aborts the whole evaluation.
#[derive(Clone, Copy, PartialEq, Eq, Structural, Debug)]
pub enum EvalError {
    /// A symbol was referenced that the variable mapping does not hold.
    UnknownSymbol,
    /// A function was called that the function mapping does not hold.
    UnknownFunction,
    /// A function was called whose body was never attached.
    MissingBody,
    /// A conditional's condition evaluated to a non-boolean literal.
    CondNotBool,
    /// A primitive operator was applied to an operand-type combination
    /// outside its table.
    BadOperands,
    /// An integer division or modulo had a zero divisor.
    DivisionByZero,
    /// No variable named `main` was ever declared.
    NoEntryPoint,
    /// The evaluation budget ran out before a result was reached; the
    /// program may diverge (for example through mutually referencing
    /// variables, which nothing detects statically).
    OutOfFuel,
}

} // verus!
