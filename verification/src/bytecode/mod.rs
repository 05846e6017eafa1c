//! Register-machine bytecode: slots, operands, op codes, instructions and modules.
pub mod slot;
pub mod operand;
pub mod op_code;
pub mod instruction;
pub mod module;
pub mod module_builder;
