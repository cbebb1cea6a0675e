//! A small compiler for a C-like statement language that emits x86-64
//! assembly for a single entry function.
pub mod utils;
pub mod token;
pub mod error;
pub mod object;
pub mod ast;
pub mod state;
pub mod lexer;
pub mod expression;
pub mod statement;
pub mod code_gen;
pub mod compile;
pub mod laws;
