//! Felico: a small programming-language toolchain (lexer, parser, bytecode
//! builder, typed arena and compiler model) whose behaviour is specified and
//! proved with Verus.

pub mod text;
pub mod base;
pub mod bytecode;
pub mod arena;
pub mod lexer;
pub mod ast;
pub mod parser;
pub mod compiler;
