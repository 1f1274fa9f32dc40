//! The core data carried between tokenization and evaluation: interned
//! symbol names, literal values, and the token stream's element type.
use vstd::prelude::*;
use crate::primitives::{Bool, Float, Int, Str};
use crate::scanner::{PreToken, Type};
use crate::semantics::{lit_view, LitV};

verus! {

/// An interned name; equality is by name.
#[derive(Debug)]
pub struct Symbol {
    pub name: String,
}

impl View for Symbol {
    type V = Seq<char>;

    open spec fn view(&self) -> Seq<char> {
        self.name@
    }
}

impl Clone for Symbol {
    fn clone(&self) -> (r: Self)
        ensures
            r == *self,
    {
        Symbol { name: self.name.clone() }
    }
}

impl Symbol {
    pub fn new(name: String) -> (r: Symbol)
        ensures
            r@ == name@,
    {
        Symbol { name }
    }

    pub fn name(&self) -> (r: String)
        ensures
            r@ == self@,
    {
        self.name.clone()
    }

    /// Whether this symbol and `other` spell the same name.
    pub fn same_name(&self, other: &Symbol) -> (r: bool)
        ensures
            r == (self@ == other@),
    {
        self.name == other.name
    }
}

/// A concrete value tagged with its type.
#[derive(Debug, PartialEq, Eq)]
pub enum Literal {
    Integer(Int),
    Float(Float),
    String(Str),
    Bool(Bool),
    Void,
}

impl View for Literal {
    type V = LitV;

    open spec fn view(&self) -> LitV {
        lit_view(*self)
    }
}

impl Clone for Literal {
    fn clone(&self) -> (r: Self)
        ensures
            r == *self,
    {
        match self {
            Literal::Integer(n) => Literal::Integer(*n),
            Literal::Float(x) => Literal::Float(*x),
            Literal::String(s) => Literal::String(s.clone()),
            Literal::Bool(b) => Literal::Bool(*b),
            Literal::Void => Literal::Void,
        }
    }
}

impl Literal {
    pub fn get_type(&self) -> (r: Type)
        ensures
            r == crate::semantics::lit_type(self@),
    {
        match self {
            Literal::Integer(_) => Type::Int,
            Literal::Float(_) => Type::Float,
            Literal::String(_) => Type::Str,
            Literal::Bool(_) => Type::Bool,
            Literal::Void => Type::NoType,
        }
    }
}

/// One element of the token stream the core consumes.
#[derive(Debug)]
pub enum Token {
    Lang(PreToken),
    Symb(Symbol),
    Lit(Literal),
}

impl View for Token {
    type V = crate::semantics::TokenV;

    open spec fn view(&self) -> crate::semantics::TokenV {
        crate::semantics::token_view(*self)
    }
}

impl Clone for Token {
    fn clone(&self) -> (r: Self)
        ensures
            r == *self,
    {
        match self {
            Token::Lang(t) => Token::Lang(*t),
            Token::Symb(s) => Token::Symb(s.clone()),
            Token::Lit(l) => Token::Lit(l.clone()),
        }
    }
}

/// An error in turning raw words into tokens.
#[derive(Debug)]
pub struct ParsingError {
    pub line: usize,
    pub message: String,
}

} // verus!
