//! Instructions of the virtual machine: an op code and three operands.
use vstd::prelude::*;
use crate::base::error::FelicoResult;
use crate::bytecode::module_builder::ConstantIndex;
use crate::bytecode::op_code::OpCode;
use crate::bytecode::operand::Operand;
use crate::bytecode::slot::Slot;

verus! {

/// One instruction: an op code and three operands (a wide constant index spans
/// operands `b` and `c`).
#[derive(PartialEq, Eq, Copy, Clone, Structural)]
pub struct Instruction {
    op_code: OpCode,
    operand_a: Operand,
    operand_b: Operand,
    operand_c: Operand,
}

/// The highest slot index.
pub const MAX_SLOT: u32 = 63;

/// The highest constant that fits in an operand.
pub const MAX_IMMEDIATE_CONST: u32 = 31;

/// The bit prefix that marks an immediate constant.
pub const IMMEDIATE_CONST_PREFIX: u32 = 0b1100_0000;

/// The operand used where an instruction needs none: slot 0.
pub fn operand_unused() -> (o: Operand)
    ensures
        o.spec_slot().spec_index() == 0,
{
    Operand::new(Slot::new(0))
}

/// The high byte of a constant index, carried by operand `b`.
pub open spec fn index_high_byte(index: u16) -> u8 {
    (index >> 8u16) as u8
}

/// The low byte of a constant index, carried by operand `c`.
pub open spec fn index_low_byte(index: u16) -> u8 {
    (index & 0xffu16) as u8
}

/// The constant index spelled by the slots of operands `b` and `c`.
pub open spec fn spec_join_index(high: u8, low: u8) -> u16 {
    ((high as u16) << 8u16) | (low as u16)
}

impl Instruction {
    /// The op code, in specifications.
    pub closed spec fn spec_op_code(&self) -> OpCode {
        self.op_code
    }

    /// Operand `a`, in specifications.
    pub closed spec fn spec_operand_a(&self) -> Operand {
        self.operand_a
    }

    /// Operand `b`, in specifications.
    pub closed spec fn spec_operand_b(&self) -> Operand {
        self.operand_b
    }

    /// Operand `c`, in specifications.
    pub closed spec fn spec_operand_c(&self) -> Operand {
        self.operand_c
    }

    /// The constant index carried by operands `b` and `c`, in specifications.
    pub open spec fn spec_constant_index(&self) -> u16 {
        spec_join_index(
            self.spec_operand_b().spec_slot().spec_index(),
            self.spec_operand_c().spec_slot().spec_index(),
        )
    }

    /// An instruction from its parts.
    pub fn new(op_code: OpCode, operand_a: Operand, operand_b: Operand, operand_c: Operand) -> (i:
        Self)
        ensures
            i.spec_op_code() == op_code,
            i.spec_operand_a() == operand_a,
            i.spec_operand_b() == operand_b,
            i.spec_operand_c() == operand_c,
    {
        Self { op_code, operand_a, operand_b, operand_c }
    }

    /// An instruction whose operands `b` and `c` carry a constant index: the high
    /// byte in `b`, the low byte in `c`.
    pub fn new_constant(op_code: OpCode, operand_a: Operand, constant_index: ConstantIndex) -> (r:
        FelicoResult<Self>)
        ensures
            r matches Ok(i) && i.spec_op_code() == op_code && i.spec_operand_a() == operand_a
                && i.spec_operand_b().spec_slot().spec_index() == index_high_byte(
                constant_index.spec_index(),
            ) && i.spec_operand_c().spec_slot().spec_index() == index_low_byte(
                constant_index.spec_index(),
            ) && i.spec_constant_index() == constant_index.spec_index(),
    {
        proof {
            lemma_constant_index_roundtrip(constant_index.spec_index());
        }
        let index = constant_index.index();
        let operand_b = (index >> 8) as u8;
        let operand_c = (index & 0xff) as u8;
        Ok(Instruction::new(op_code, operand_a, Operand::new(Slot::new(operand_b)), Operand::new(Slot::new(operand_c))))
    }

    /// `StoreConstant`: stores constant `constant_index` into `dst_slot`.
    pub fn store_constant(dst_slot: Slot, constant_index: ConstantIndex) -> (r: FelicoResult<Self>)
        ensures
            r matches Ok(i) && i.spec_op_code() == OpCode::StoreConstant
                && i.spec_operand_a().spec_slot() == dst_slot && i.spec_constant_index()
                == constant_index.spec_index(),
    {
        proof { lemma_constant_index_roundtrip(constant_index.spec_index()); }
        Instruction::new_constant(OpCode::StoreConstant, Operand::new(dst_slot), constant_index)
    }

    /// `StoreConstantLength`: stores the length of constant `constant_index` into `dst_slot`.
    pub fn store_constant_length(dst_slot: Slot, constant_index: ConstantIndex) -> (r: FelicoResult<
        Self,
    >)
        ensures
            r matches Ok(i) && i.spec_op_code() == OpCode::StoreConstantLength
                && i.spec_operand_a().spec_slot() == dst_slot && i.spec_constant_index()
                == constant_index.spec_index(),
    {
        proof { lemma_constant_index_roundtrip(constant_index.spec_index()); }
        Instruction::new_constant(OpCode::StoreConstantLength, Operand::new(dst_slot), constant_index)
    }

    /// `StoreFunction`: stores the function named by constant `constant_index` into `dst_slot`.
    pub fn store_function(dst_slot: Slot, constant_index: ConstantIndex) -> (r: FelicoResult<Self>)
        ensures
            r matches Ok(i) && i.spec_op_code() == OpCode::StoreFunction
                && i.spec_operand_a().spec_slot() == dst_slot && i.spec_constant_index()
                == constant_index.spec_index(),
    {
        proof { lemma_constant_index_roundtrip(constant_index.spec_index()); }
        Instruction::new_constant(OpCode::StoreFunction, Operand::new(dst_slot), constant_index)
    }

    /// `Return`, with all operands unused.
    pub fn ret() -> (r: FelicoResult<Self>)
        ensures
            r matches Ok(i) && i.spec_op_code() == OpCode::Return
                && i.spec_operand_a().spec_slot().spec_index() == 0
                && i.spec_operand_b().spec_slot().spec_index() == 0
                && i.spec_operand_c().spec_slot().spec_index() == 0,
    {
        Ok(Instruction::new(OpCode::Return, operand_unused(), operand_unused(), operand_unused()))
    }

    /// `Call`: calls the function in `fun_slot`, its result going to `return_slot`.
    pub fn call(fun_slot: Slot, return_slot: Slot) -> (r: FelicoResult<Self>)
        ensures
            r matches Ok(i) && i.spec_op_code() == OpCode::Call && i.spec_operand_a().spec_slot()
                == fun_slot && i.spec_operand_b().spec_slot() == return_slot
                && i.spec_operand_c().spec_slot().spec_index() == 0,
    {
        Ok(Instruction::new(OpCode::Call, Operand::new(fun_slot), Operand::new(return_slot), operand_unused()))
    }

    /// The op code.
    pub fn op_code(&self) -> (o: OpCode)
        ensures
            o == self.spec_op_code(),
    {
        self.op_code
    }

    /// Operand `a`.
    pub fn operand_a(&self) -> (o: Operand)
        ensures
            o == self.spec_operand_a(),
    {
        self.operand_a
    }

    /// Operand `b`.
    pub fn operand_b(&self) -> (o: Operand)
        ensures
            o == self.spec_operand_b(),
    {
        self.operand_b
    }

    /// Operand `c`.
    pub fn operand_c(&self) -> (o: Operand)
        ensures
            o == self.spec_operand_c(),
    {
        self.operand_c
    }

    /// The constant index carried by operands `b` and `c`.
    pub fn operand_constant_index(&self) -> (c: ConstantIndex)
        ensures
            c.spec_index() == self.spec_constant_index(),
    {
        let high = self.operand_b().slot().index();
        let low = self.operand_c().slot().index();
        ConstantIndex::new(((high as u16) << 8) | (low as u16))
    }
}

/// Splitting a constant index into its two bytes and joining them again gives
/// the index back: an instruction built with a constant index reports that index.
pub proof fn lemma_constant_index_roundtrip(index: u16)
    ensures
        spec_join_index(index_high_byte(index), index_low_byte(index)) == index,
{
    assert(((((index >> 8u16) as u8) as u16) << 8u16) | (((index & 0xffu16) as u8) as u16) == index)
        by (bit_vector);
}

} // verus!
