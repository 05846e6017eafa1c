//! Operation codes of instructions.
use vstd::prelude::*;

verus! {

/// The operation an instruction performs.
#[derive(Debug, PartialEq, Eq, Copy, Clone, Structural)]
pub enum OpCode {
    StoreImmediate,
    StoreConstant,
    StoreConstantLength,
    StoreFunction,
    Call,
    Return,
}

/// The byte that encodes an op code.
pub open spec fn op_code_byte(op_code: OpCode) -> u8 {
    match op_code {
        OpCode::StoreImmediate => 0,
        OpCode::StoreConstant => 1,
        OpCode::StoreConstantLength => 2,
        OpCode::StoreFunction => 3,
        OpCode::Call => 10,
        OpCode::Return => 255,
    }
}

/// The name of an op code, as it is printed.
pub open spec fn op_code_name(op_code: OpCode) -> Seq<char> {
    match op_code {
        OpCode::StoreImmediate => "StoreImmediate"@,
        OpCode::StoreConstant => "StoreConstant"@,
        OpCode::StoreConstantLength => "StoreConstantLength"@,
        OpCode::StoreFunction => "StoreFunction"@,
        OpCode::Call => "Call"@,
        OpCode::Return => "Return"@,
    }
}

/// The name of an op code, as it is printed.
pub fn op_code_to_name(op_code: OpCode) -> (s: &'static str)
    ensures
        s@ == op_code_name(op_code),
{
    proof {
        reveal_strlit("StoreImmediate");
        reveal_strlit("StoreConstant");
        reveal_strlit("StoreConstantLength");
        reveal_strlit("StoreFunction");
        reveal_strlit("Call");
        reveal_strlit("Return");
    }
    match op_code {
        OpCode::StoreImmediate => "StoreImmediate",
        OpCode::StoreConstant => "StoreConstant",
        OpCode::StoreConstantLength => "StoreConstantLength",
        OpCode::StoreFunction => "StoreFunction",
        OpCode::Call => "Call",
        OpCode::Return => "Return",
    }
}

impl From<OpCode> for u8 {
    fn from(op_code: OpCode) -> (b: u8) {
        match op_code {
            OpCode::StoreImmediate => 0,
            OpCode::StoreConstant => 1,
            OpCode::StoreConstantLength => 2,
            OpCode::StoreFunction => 3,
            OpCode::Call => 10,
            OpCode::Return => 255,
        }
    }
}

impl vstd::std_specs::convert::FromSpecImpl<OpCode> for u8 {
    open spec fn obeys_from_spec() -> bool {
        true
    }

    open spec fn from_spec(v: OpCode) -> u8 {
        op_code_byte(v)
    }
}

/// Distinct op codes are encoded by distinct bytes.
pub proof fn lemma_op_code_byte_injective(a: OpCode, b: OpCode)
    ensures
        op_code_byte(a) == op_code_byte(b) ==> a == b,
{
}

} // verus!
