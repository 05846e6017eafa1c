use felico::base::error::FelicoResult;
use felico::bytecode::module_builder::ModuleBuilder;
use felico::bytecode::op_code::OpCode;
use felico::bytecode::slot::Slot;

#[test]
fn op_code_to_u8() {
    assert_eq!(u8::from(OpCode::StoreImmediate), 0);
    assert_eq!(u8::from(OpCode::StoreConstant), 1);
    assert_eq!(u8::from(OpCode::Call), 10);
}

#[test]
fn test_new() -> FelicoResult<()> {
    let mut builder = ModuleBuilder::new("test");
    let print_constant_index = builder.add_function_import("print");
    let mut fbuilder = builder.build_function("main");
    fbuilder.load_string(Slot::from(13), Slot::from(14), "Hello World")?;
    fbuilder.store_function(Slot::from(3), print_constant_index)?;
    fbuilder.call(Slot::from(3), Slot::from(14))?;
    fbuilder.ret()?;
    let builder = fbuilder.finish();
    let module = builder.build();
    let expected = "Module test
  Constants:
     0: FunctionImport <print>
     1: String \"main\"
     2: String \"Hello World\"
  Functions:
     0: Function <main>
       0: StoreConstant s13 c2 (String \"Hello World\")
       1: StoreConstantLength s14 c2 (length: 11 bytes)
       2: StoreFunction s3 c0 (FunctionImport <print>)
       3: Call s3 s14 s0
       4: Return s0 s0 s0
";
    assert_eq!(module.test_print_to_string(0)?, expected);
    Ok(())
}

use felico::bytecode::instruction::Instruction;
use felico::bytecode::module::ConstantType;
use felico::bytecode::module_builder::ConstantIndex;
use felico::bytecode::operand::Operand;

#[test]
fn constant_index_splits_into_operands() {
    let instruction =
        Instruction::new_constant(OpCode::StoreConstant, Operand::from(Slot::from(7)), ConstantIndex::from(0x1234)).unwrap();
    assert_eq!(instruction.op_code(), OpCode::StoreConstant);
    assert_eq!(instruction.operand_a().slot().index(), 7);
    assert_eq!(instruction.operand_b().slot().index(), 0x12);
    assert_eq!(instruction.operand_c().slot().index(), 0x34);
    assert_eq!(instruction.operand_constant_index().index(), 0x1234);
}

#[test]
fn added_text_reads_back() {
    let mut builder = ModuleBuilder::new("m");
    let hello = builder.add_string("héllo");
    let import = builder.add_function_import("print");
    let module = builder.build();
    assert_eq!(module.get_constant(hello).unwrap().as_str().unwrap(), "héllo");
    assert_eq!(module.get_constant(import).unwrap().as_function_import().unwrap(), "print");
    assert_eq!(
        module.get_constant(import).unwrap().as_str().err().unwrap().message,
        "Constant is not a string, but FunctionImport"
    );
    assert_eq!(module.get_constant(hello).unwrap().constant_type(), ConstantType::String);
    assert_eq!(
        module.get_constant(ConstantIndex::from(9)).err().unwrap().message,
        "Constant index out of bounds: 9"
    );
}

#[test]
fn op_code_names() {
    assert_eq!(u8::from(OpCode::StoreConstantLength), 2);
    assert_eq!(u8::from(OpCode::StoreFunction), 3);
    assert_eq!(u8::from(OpCode::Return), 255);
}

use felico::bytecode::module::{ConstantPoolEntry, FunctionEntry, Module};

#[test]
fn invalid_utf8_constant_is_an_error() {
    let entry = ConstantPoolEntry::new(ConstantType::String, vec![0x66, 0xff]);
    let error = entry.as_str().err().unwrap();
    assert_eq!(error.message, "invalid utf-8 sequence of 1 bytes from index 1");
}

#[test]
fn printing_fails_on_a_function_named_by_a_non_string() {
    let module = Module {
        name: "m".to_string(),
        constant_pool: vec![ConstantPoolEntry::new(ConstantType::ByteArray, vec![1, 2])],
        functions: vec![FunctionEntry::new(ConstantIndex::from(0), vec![])],
    };
    let error = module.test_print_to_string(0).err().unwrap();
    assert_eq!(error.message, "Constant is not a string, but ByteArray");
}
