//! The interpreter's data and decisions: stack frames, panics, the value factory, the core
//! definitions and entering calls.
pub mod stack_frame;
pub mod value;
pub mod call;
pub mod core_definitions;
pub mod environment;
