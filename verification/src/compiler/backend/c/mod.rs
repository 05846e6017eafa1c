//! The C back end: the Zig C compiler that builds the generated code.
pub mod c_compiler;
pub mod c_code_generator;
