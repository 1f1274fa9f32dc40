//! A small statically typed, expression-oriented language with prefix
//! notation, first-class functions, and staged function bodies.
//!
//! The crate consumes an already-tokenized stream, builds a type-checked
//! program representation, and evaluates it to a single literal result.
pub mod ast_generator;
pub mod env;
pub mod errors;
pub mod expressions;
pub mod functions;
pub mod globalstate;
pub mod laws;
pub mod parser;
pub mod primitives;
pub mod scanner;
pub mod semantics;
