//! Bytecode modules: a constant pool and functions, and their printed form.
use vstd::prelude::*;
use vstd::utf8::*;
use crate::base::error::{FelicoError, FelicoResult};
use crate::bytecode::instruction::Instruction;
use crate::bytecode::module_builder::ConstantIndex;
use crate::bytecode::op_code::{op_code_name, op_code_to_name, OpCode};
use crate::bytecode::operand::Operand;
use crate::text::{decimal, pad_left, push_decimal, push_decimal_padded, push_str, utf8_error_text, str_from_utf8};

verus! {

/// A compiled module: its name, constant pool and functions.
pub struct Module {
    pub name: String,
    pub constant_pool: Vec<ConstantPoolEntry>,
    pub functions: Vec<FunctionEntry>,
}

/// An entry of the constant pool: typed raw data.
pub struct ConstantPoolEntry {
    constant_type: ConstantType,
    pub data: Vec<u8>,
}

/// The kind of a constant.
#[derive(Debug, PartialEq, Eq, Copy, Clone, Structural)]
pub enum ConstantType {
    ByteArray,
    String,
    FunctionImport,
}

/// A function of a module: the constant holding its name, and its instructions.
pub struct FunctionEntry {
    pub name_constant: ConstantIndex,
    instructions: Vec<Instruction>,
}

/// The start of the error for a constant that is not a string.
pub const NOT_A_STRING: &'static str = "Constant is not a string, but ";

/// The start of the error for a constant that is not a function import.
pub const NOT_A_FUNCTION_IMPORT: &'static str = "Constant is not a FunctionImport, but ";

/// The start of the error for a constant index past the pool.
pub const INDEX_OUT_OF_BOUNDS: &'static str = "Constant index out of bounds: ";

/// Concatenation of two partial results: the first error wins.
pub open spec fn rcat(a: Result<Seq<char>, Seq<char>>, b: Result<Seq<char>, Seq<char>>) -> Result<
    Seq<char>,
    Seq<char>,
> {
    match a {
        Err(e) => Err(e),
        Ok(x) => match b {
            Err(e) => Err(e),
            Ok(y) => Ok(x + y),
        },
    }
}

/// The printed name of a constant type.
pub open spec fn constant_type_name(t: ConstantType) -> Seq<char> {
    match t {
        ConstantType::ByteArray => "ByteArray"@,
        ConstantType::String => "String"@,
        ConstantType::FunctionImport => "FunctionImport"@,
    }
}

/// The text of a constant of the `expected` type (`what` names it in the error),
/// or the error message.
pub open spec fn spec_constant_text(
    entry: ConstantPoolEntry,
    expected: ConstantType,
    not_a: Seq<char>,
) -> Result<Seq<char>, Seq<char>> {
    if entry.spec_constant_type() != expected {
        Err(not_a + constant_type_name(entry.spec_constant_type()))
    } else if valid_utf8(entry.spec_data()) {
        Ok(decode_utf8(entry.spec_data()))
    } else {
        Err(utf8_error_text(entry.spec_data()))
    }
}

/// The constant at `index`, or the error message.
pub open spec fn spec_get_constant(m: Module, index: u16) -> Result<ConstantPoolEntry, Seq<char>> {
    if (index as int) < m.constant_pool@.len() {
        Ok(m.constant_pool@[index as int])
    } else {
        Err(INDEX_OUT_OF_BOUNDS@ + decimal(index as nat))
    }
}

/// The printed line of constant number `index`.
pub open spec fn constant_line(index: nat, c: ConstantPoolEntry) -> Result<Seq<char>, Seq<char>> {
    let prefix = "   "@ + pad_left(decimal(index), 3) + ": "@;
    match c.spec_constant_type() {
        ConstantType::ByteArray => Ok(
            prefix + "ByteArray ("@ + decimal(c.spec_data().len()) + " bytes)\n"@,
        ),
        ConstantType::String => match spec_constant_text(c, ConstantType::String, NOT_A_STRING@) {
            Ok(s) => Ok(prefix + "String \""@ + s + "\"\n"@),
            Err(e) => Err(e),
        },
        ConstantType::FunctionImport => match spec_constant_text(
            c,
            ConstantType::FunctionImport,
            NOT_A_FUNCTION_IMPORT@,
        ) {
            Ok(s) => Ok(prefix + "FunctionImport <"@ + s + ">\n"@),
            Err(e) => Err(e),
        },
    }
}

/// The printed lines of the first `n` constants.
pub open spec fn constants_text(cs: Seq<ConstantPoolEntry>, n: nat) -> Result<Seq<char>, Seq<char>>
    decreases n,
{
    if n == 0 {
        Ok(seq![])
    } else {
        rcat(constants_text(cs, (n - 1) as nat), constant_line((n - 1) as nat, cs[n - 1]))
    }
}

/// The printed form of an operand: ` s<slot>`.
pub open spec fn operand_text(o: Operand) -> Seq<char> {
    " s"@ + decimal(o.spec_slot().spec_index() as nat)
}

/// The printed reference to constant `index` in an instruction.
pub open spec fn constant_ref_text(m: Module, index: u16) -> Result<Seq<char>, Seq<char>> {
    match spec_get_constant(m, index) {
        Err(e) => Err(e),
        Ok(c) => match c.spec_constant_type() {
            ConstantType::String => match spec_constant_text(c, ConstantType::String, NOT_A_STRING@) {
                Ok(s) => Ok(" c"@ + decimal(index as nat) + " (String \""@ + s + "\")"@),
                Err(e) => Err(e),
            },
            ConstantType::FunctionImport => match spec_constant_text(
                c,
                ConstantType::FunctionImport,
                NOT_A_FUNCTION_IMPORT@,
            ) {
                Ok(s) => Ok(" c"@ + decimal(index as nat) + " (FunctionImport <"@ + s + ">)"@),
                Err(e) => Err(e),
            },
            ConstantType::ByteArray => Ok(
                " c"@ + decimal(index as nat) + " ("@ + decimal(c.spec_data().len()) + " bytes)"@,
            ),
        },
    }
}

/// The printed operands of an instruction, after operand `a`.
pub open spec fn instruction_operands_text(m: Module, ins: Instruction) -> Result<Seq<char>, Seq<char>> {
    let index = ins.spec_constant_index();
    match ins.spec_op_code() {
        OpCode::StoreConstant => constant_ref_text(m, index),
        OpCode::StoreFunction => constant_ref_text(m, index),
        OpCode::StoreConstantLength => match spec_get_constant(m, index) {
            Ok(c) => Ok(
                " c"@ + decimal(index as nat) + " (length: "@ + decimal(c.spec_data().len())
                    + " bytes)"@,
            ),
            Err(e) => Err(e),
        },
        _ => Ok(operand_text(ins.spec_operand_b()) + operand_text(ins.spec_operand_c())),
    }
}

/// The printed line of instruction number `index`.
pub open spec fn instruction_line(m: Module, index: nat, ins: Instruction) -> Result<Seq<char>, Seq<char>> {
    let head = "     "@ + pad_left(decimal(index), 3) + ": "@ + op_code_name(ins.spec_op_code())
        + operand_text(ins.spec_operand_a());
    rcat(Ok(head), rcat(instruction_operands_text(m, ins), Ok("\n"@)))
}

/// The printed lines of the first `n` instructions.
pub open spec fn instructions_text(m: Module, ins: Seq<Instruction>, n: nat) -> Result<Seq<char>, Seq<char>>
    decreases n,
{
    if n == 0 {
        Ok(seq![])
    } else {
        rcat(instructions_text(m, ins, (n - 1) as nat), instruction_line(m, (n - 1) as nat, ins[n - 1]))
    }
}

/// The printed name of a function, or the error message.
pub open spec fn function_name_text(m: Module, f: FunctionEntry) -> Result<Seq<char>, Seq<char>> {
    match spec_get_constant(m, f.spec_name_constant().spec_index()) {
        Ok(c) => spec_constant_text(c, ConstantType::String, NOT_A_STRING@),
        Err(e) => Err(e),
    }
}

/// The printed lines of function number `index`.
pub open spec fn function_text(m: Module, index: nat, f: FunctionEntry) -> Result<Seq<char>, Seq<char>> {
    let head = match function_name_text(m, f) {
        Ok(name) => Ok("   "@ + pad_left(decimal(index), 3) + ": "@ + "Function <"@ + name + ">\n"@),
        Err(e) => Err(e),
    };
    rcat(head, instructions_text(m, f.spec_instructions(), f.spec_instructions().len()))
}

/// The printed lines of the first `n` functions.
pub open spec fn functions_text(m: Module, n: nat) -> Result<Seq<char>, Seq<char>>
    decreases n,
{
    if n == 0 {
        Ok(seq![])
    } else {
        rcat(functions_text(m, (n - 1) as nat), function_text(m, (n - 1) as nat, m.functions@[n - 1]))
    }
}

/// The printed form of a module, or the error that stops the printing.
pub open spec fn module_text(m: Module) -> Result<Seq<char>, Seq<char>> {
    rcat(
        Ok("Module "@ + m.name@ + "\n"@ + "  Constants:\n"@),
        rcat(
            constants_text(m.constant_pool@, m.constant_pool@.len()),
            rcat(Ok("  Functions:\n"@), functions_text(m, m.functions@.len())),
        ),
    )
}

/// Once a fold of printed lines has failed, it stays failed with the same message.
proof fn lemma_constants_text_err(cs: Seq<ConstantPoolEntry>, k: nat, n: nat, m: Seq<char>)
    requires
        k <= n,
        constants_text(cs, k) == Err::<Seq<char>, Seq<char>>(m),
    ensures
        constants_text(cs, n) == Err::<Seq<char>, Seq<char>>(m),
    decreases n - k,
{
    if k < n {
        lemma_constants_text_err(cs, k, (n - 1) as nat, m);
    }
}

proof fn lemma_instructions_text_err(mo: Module, ins: Seq<Instruction>, k: nat, n: nat, m: Seq<char>)
    requires
        k <= n,
        instructions_text(mo, ins, k) == Err::<Seq<char>, Seq<char>>(m),
    ensures
        instructions_text(mo, ins, n) == Err::<Seq<char>, Seq<char>>(m),
    decreases n - k,
{
    if k < n {
        lemma_instructions_text_err(mo, ins, k, (n - 1) as nat, m);
    }
}

proof fn lemma_functions_text_err(mo: Module, k: nat, n: nat, m: Seq<char>)
    requires
        k <= n,
        functions_text(mo, k) == Err::<Seq<char>, Seq<char>>(m),
    ensures
        functions_text(mo, n) == Err::<Seq<char>, Seq<char>>(m),
    decreases n - k,
{
    if k < n {
        lemma_functions_text_err(mo, k, (n - 1) as nat, m);
    }
}

/// The printed name of a constant type.
pub fn constant_type_to_name(t: ConstantType) -> (s: &'static str)
    ensures
        s@ == constant_type_name(t),
{
    match t {
        ConstantType::ByteArray => "ByteArray",
        ConstantType::String => "String",
        ConstantType::FunctionImport => "FunctionImport",
    }
}

impl Module {
    /// The constant at `constant_index`; an error when the index is past the pool.
    pub fn get_constant(&self, constant_index: ConstantIndex) -> (r: FelicoResult<&ConstantPoolEntry>)
        ensures
            match spec_get_constant(*self, constant_index.spec_index()) {
                Ok(c) => r matches Ok(x) && *x == c,
                Err(m) => r matches Err(e) && e.message@ == m,
            },
    {
        let index = constant_index.index();
        if (index as usize) < self.constant_pool.len() {
            Ok(&self.constant_pool[index as usize])
        } else {
            let mut message = String::new();
            push_str(&mut message, INDEX_OUT_OF_BOUNDS);
            push_decimal(&mut message, index as u64);
            Err(FelicoError::message(message))
        }
    }
}

impl ConstantPoolEntry {
    /// The type of the constant, in specifications.
    pub closed spec fn spec_constant_type(&self) -> ConstantType {
        self.constant_type
    }

    /// The data of the constant, in specifications.
    pub closed spec fn spec_data(&self) -> Seq<u8> {
        self.data@
    }

    /// A constant of the given type and data.
    pub fn new(constant_type: ConstantType, data: Vec<u8>) -> (e: Self)
        ensures
            e.spec_constant_type() == constant_type,
            e.spec_data() == data@,
    {
        Self { constant_type, data }
    }

    /// The type of the constant.
    pub fn constant_type(&self) -> (t: ConstantType)
        ensures
            t == self.spec_constant_type(),
    {
        self.constant_type
    }

    /// The data of the constant.
    pub fn data(&self) -> (d: &Vec<u8>)
        ensures
            d@ == self.spec_data(),
    {
        &self.data
    }

    fn as_text(&self, expected: ConstantType, not_a: &str) -> (r: FelicoResult<&str>)
        ensures
            match spec_constant_text(*self, expected, not_a@) {
                Ok(s) => r matches Ok(x) && x@ == s,
                Err(m) => r matches Err(e) && e.message@ == m,
            },
    {
        if self.constant_type != expected {
            let mut message = String::new();
            push_str(&mut message, not_a);
            push_str(&mut message, constant_type_to_name(self.constant_type));
            return Err(FelicoError::message(message));
        }
        match str_from_utf8(self.data.as_slice()) {
            Ok(s) => {
                proof { encode_utf8_decode_utf8(s@); }
                Ok(s)
            },
            Err(m) => Err(FelicoError::message(m)),
        }
    }

    /// The constant as text; an error when it is not a string or not valid UTF-8.
    pub fn as_str(&self) -> (r: FelicoResult<&str>)
        ensures
            match spec_constant_text(*self, ConstantType::String, NOT_A_STRING@) {
                Ok(s) => r matches Ok(x) && x@ == s,
                Err(m) => r matches Err(e) && e.message@ == m,
            },
    {
        self.as_text(ConstantType::String, NOT_A_STRING)
    }

    /// The name of an imported function; an error when the constant is not a
    /// function import or not valid UTF-8.
    pub fn as_function_import(&self) -> (r: FelicoResult<&str>)
        ensures
            match spec_constant_text(*self, ConstantType::FunctionImport, NOT_A_FUNCTION_IMPORT@) {
                Ok(s) => r matches Ok(x) && x@ == s,
                Err(m) => r matches Err(e) && e.message@ == m,
            },
    {
        self.as_text(ConstantType::FunctionImport, NOT_A_FUNCTION_IMPORT)
    }
}

impl FunctionEntry {
    /// The instructions of the function, in specifications.
    pub closed spec fn spec_instructions(&self) -> Seq<Instruction> {
        self.instructions@
    }

    /// The constant naming the function, in specifications.
    pub closed spec fn spec_name_constant(&self) -> ConstantIndex {
        self.name_constant
    }

    /// A function named by constant `name_constant`, with the given instructions.
    pub fn new(name_constant: ConstantIndex, instructions: Vec<Instruction>) -> (f: Self)
        ensures
            f.spec_name_constant() == name_constant,
            f.spec_instructions() == instructions@,
    {
        Self { name_constant, instructions }
    }

    /// The instructions of the function.
    pub fn instructions(&self) -> (v: &Vec<Instruction>)
        ensures
            v@ == self.spec_instructions(),
    {
        &self.instructions
    }
}

fn write_operand(out: &mut String, o: Operand)
    ensures
        final(out)@ == old(out)@ + operand_text(o),
{
    push_str(out, " s");
    push_decimal(out, o.slot().index() as u64);
    assert(out@ =~= old(out)@ + operand_text(o));
}

fn write_constant_line(out: &mut String, index: usize, c: &ConstantPoolEntry) -> (r: FelicoResult<()>)
    ensures
        match constant_line(index as nat, *c) {
            Ok(s) => r is Ok && final(out)@ == old(out)@ + s,
            Err(m) => r matches Err(e) && e.message@ == m,
        },
{
    push_str(out, "   ");
    push_decimal_padded(out, index as u64, 3);
    push_str(out, ": ");
    let ghost prefix = "   "@ + pad_left(decimal(index as nat), 3) + ": "@;
    assert(out@ =~= old(out)@ + prefix);
    match c.constant_type() {
        ConstantType::ByteArray => {
            push_str(out, "ByteArray (");
            push_decimal(out, c.data().len() as u64);
            push_str(out, " bytes)\n");
            assert(out@ =~= old(out)@ + (prefix + "ByteArray ("@ + decimal(c.spec_data().len())
                + " bytes)\n"@));
            Ok(())
        },
        ConstantType::String => {
            match c.as_str() {
                Ok(s) => {
                    push_str(out, "String \"");
                    push_str(out, s);
                    push_str(out, "\"\n");
                    assert(out@ =~= old(out)@ + (prefix + "String \""@ + s@ + "\"\n"@));
                    Ok(())
                },
                Err(e) => Err(e),
            }
        },
        ConstantType::FunctionImport => {
            match c.as_function_import() {
                Ok(s) => {
                    push_str(out, "FunctionImport <");
                    push_str(out, s);
                    push_str(out, ">\n");
                    assert(out@ =~= old(out)@ + (prefix + "FunctionImport <"@ + s@ + ">\n"@));
                    Ok(())
                },
                Err(e) => Err(e),
            }
        },
    }
}

impl Module {
    fn write_constant_ref(&self, out: &mut String, index: ConstantIndex) -> (r: FelicoResult<()>)
        ensures
            match constant_ref_text(*self, index.spec_index()) {
                Ok(s) => r is Ok && final(out)@ == old(out)@ + s,
                Err(m) => r matches Err(e) && e.message@ == m,
            },
    {
        let c = match self.get_constant(index) {
            Ok(c) => c,
            Err(e) => { return Err(e); },
        };
        let i = index.index() as u64;
        match c.constant_type() {
            ConstantType::String => {
                match c.as_str() {
                    Ok(s) => {
                        push_str(out, " c");
                        push_decimal(out, i);
                        push_str(out, " (String \"");
                        push_str(out, s);
                        push_str(out, "\")");
                        assert(out@ =~= old(out)@ + (" c"@ + decimal(index.spec_index() as nat)
                            + " (String \""@ + s@ + "\")"@));
                        Ok(())
                    },
                    Err(e) => Err(e),
                }
            },
            ConstantType::FunctionImport => {
                match c.as_function_import() {
                    Ok(s) => {
                        push_str(out, " c");
                        push_decimal(out, i);
                        push_str(out, " (FunctionImport <");
                        push_str(out, s);
                        push_str(out, ">)");
                        assert(out@ =~= old(out)@ + (" c"@ + decimal(index.spec_index() as nat)
                            + " (FunctionImport <"@ + s@ + ">)"@));
                        Ok(())
                    },
                    Err(e) => Err(e),
                }
            },
            ConstantType::ByteArray => {
                push_str(out, " c");
                push_decimal(out, i);
                push_str(out, " (");
                push_decimal(out, c.data().len() as u64);
                push_str(out, " bytes)");
                assert(out@ =~= old(out)@ + (" c"@ + decimal(index.spec_index() as nat) + " ("@
                    + decimal(c.spec_data().len()) + " bytes)"@));
                Ok(())
            },
        }
    }

    fn write_instruction_line(&self, out: &mut String, index: usize, ins: &Instruction) -> (r:
        FelicoResult<()>)
        ensures
            match instruction_line(*self, index as nat, *ins) {
                Ok(s) => r is Ok && final(out)@ == old(out)@ + s,
                Err(m) => r matches Err(e) && e.message@ == m,
            },
    {
        push_str(out, "     ");
        push_decimal_padded(out, index as u64, 3);
        push_str(out, ": ");
        push_str(out, op_code_to_name(ins.op_code()));
        write_operand(out, ins.operand_a());
        let ghost head = "     "@ + pad_left(decimal(index as nat), 3) + ": "@ + op_code_name(
            ins.spec_op_code(),
        ) + operand_text(ins.spec_operand_a());
        assert(out@ =~= old(out)@ + head);
        let ghost mid = out@;
        let op_code = ins.op_code();
        if op_code == OpCode::StoreConstant || op_code == OpCode::StoreFunction {
            let constant_index = ins.operand_constant_index();
            match self.write_constant_ref(out, constant_index) {
                Ok(()) => {},
                Err(e) => { return Err(e); },
            }
        } else if op_code == OpCode::StoreConstantLength {
            let constant_index = ins.operand_constant_index();
            let c = match self.get_constant(constant_index) {
                Ok(c) => c,
                Err(e) => { return Err(e); },
            };
            push_str(out, " c");
            push_decimal(out, constant_index.index() as u64);
            push_str(out, " (length: ");
            push_decimal(out, c.data().len() as u64);
            push_str(out, " bytes)");
            assert(out@ =~= mid + (" c"@ + decimal(constant_index.spec_index() as nat) + " (length: "@
                + decimal(c.spec_data().len()) + " bytes)"@));
        } else {
            write_operand(out, ins.operand_b());
            write_operand(out, ins.operand_c());
            assert(out@ =~= mid + (operand_text(ins.spec_operand_b()) + operand_text(
                ins.spec_operand_c(),
            )));
        }
        let ghost ops = out@.subrange(mid.len() as int, out@.len() as int);
        assert(out@ =~= mid + ops);
        push_str(out, "\n");
        assert(out@ =~= old(out)@ + (head + (ops + "\n"@)));
        Ok(())
    }

    fn write_function(&self, out: &mut String, index: usize, f: &FunctionEntry) -> (r: FelicoResult<()>)
        ensures
            match function_text(*self, index as nat, *f) {
                Ok(s) => r is Ok && final(out)@ == old(out)@ + s,
                Err(m) => r matches Err(e) && e.message@ == m,
            },
    {
        let c = match self.get_constant(f.name_constant) {
            Ok(c) => c,
            Err(e) => { return Err(e); },
        };
        let name = match c.as_str() {
            Ok(name) => name,
            Err(e) => { return Err(e); },
        };
        push_str(out, "   ");
        push_decimal_padded(out, index as u64, 3);
        push_str(out, ": ");
        push_str(out, "Function <");
        push_str(out, name);
        push_str(out, ">\n");
        let ghost head = "   "@ + pad_left(decimal(index as nat), 3) + ": "@ + "Function <"@ + name@ + ">\n"@;
        assert(out@ =~= old(out)@ + head);
        let ghost base = out@;
        let instructions = f.instructions();
        let mut i: usize = 0;
        while i < instructions.len()
            invariant
                i <= instructions@.len(),
                instructions@ == f.spec_instructions(),
                function_name_text(*self, *f) == Ok::<Seq<char>, Seq<char>>(name@),
                base == old(out)@ + head,
                instructions_text(*self, instructions@, i as nat) is Ok,
                out@ == base + instructions_text(*self, instructions@, i as nat)->Ok_0,
            decreases instructions.len() - i,
        {
            let ghost before = out@;
            match self.write_instruction_line(out, i, &instructions[i]) {
                Ok(()) => {},
                Err(e) => {
                    proof {
                        assert(instructions_text(*self, instructions@, (i + 1) as nat)
                            == Err::<Seq<char>, Seq<char>>(e.message@));
                        lemma_instructions_text_err(*self, instructions@, (i + 1) as nat,
                            instructions@.len(), e.message@);
                    }
                    return Err(e);
                },
            }
            i = i + 1;
            assert(out@ =~= base + instructions_text(*self, instructions@, i as nat)->Ok_0);
        }
        Ok(())
    }

    /// The printed form of the module: its constants, then its functions with
    /// their instructions; an error when a constant cannot be printed or a
    /// function refers to a missing or non-string name constant.
    pub fn test_print_to_string(&self, indent: usize) -> (r: FelicoResult<String>)
        ensures
            match module_text(*self) {
                Ok(s) => r matches Ok(t) && t@ == s,
                Err(m) => r matches Err(e) && e.message@ == m,
            },
    {
        let mut out = String::new();
        push_str(&mut out, "Module ");
        push_str(&mut out, self.name.as_str());
        push_str(&mut out, "\n");
        push_str(&mut out, "  Constants:\n");
        let ghost header = "Module "@ + self.name@ + "\n"@ + "  Constants:\n"@;
        assert(out@ =~= header);
        let mut i: usize = 0;
        while i < self.constant_pool.len()
            invariant
                i <= self.constant_pool@.len(),
                constants_text(self.constant_pool@, i as nat) is Ok,
                out@ == header + constants_text(self.constant_pool@, i as nat)->Ok_0,
            decreases self.constant_pool.len() - i,
        {
            match write_constant_line(&mut out, i, &self.constant_pool[i]) {
                Ok(()) => {},
                Err(e) => {
                    proof {
                        lemma_constants_text_err(self.constant_pool@, (i + 1) as nat,
                            self.constant_pool@.len(), e.message@);
                    }
                    return Err(e);
                },
            }
            i = i + 1;
            assert(out@ =~= header + constants_text(self.constant_pool@, i as nat)->Ok_0);
        }
        push_str(&mut out, "  Functions:\n");
        let ghost header2 = out@;
        let mut j: usize = 0;
        while j < self.functions.len()
            invariant
                j <= self.functions@.len(),
                functions_text(*self, j as nat) is Ok,
                constants_text(self.constant_pool@, self.constant_pool@.len()) is Ok,
                out@ == header2 + functions_text(*self, j as nat)->Ok_0,
            decreases self.functions.len() - j,
        {
            match self.write_function(&mut out, j, &self.functions[j]) {
                Ok(()) => {},
                Err(e) => {
                    proof {
                        assert(functions_text(*self, (j + 1) as nat)
                            == Err::<Seq<char>, Seq<char>>(e.message@));
                        lemma_functions_text_err(*self, (j + 1) as nat, self.functions@.len(),
                            e.message@);
                    }
                    return Err(e);
                },
            }
            j = j + 1;
            assert(out@ =~= header2 + functions_text(*self, j as nat)->Ok_0);
        }
        assert(out@ =~= header + (constants_text(self.constant_pool@, self.constant_pool@.len())->Ok_0
            + ("  Functions:\n"@ + functions_text(*self, self.functions@.len())->Ok_0)));
        Ok(out)
    }

    /// Appends the printed form of the module to `out` (see `test_print_to_string`);
    /// on an error `out` is left as it was.
    pub fn test_print(&self, out: &mut String, indent: usize) -> (r: FelicoResult<()>)
        ensures
            match module_text(*self) {
                Ok(s) => r is Ok && final(out)@ == old(out)@ + s,
                Err(m) => r matches Err(e) && e.message@ == m && final(out)@ == old(out)@,
            },
    {
        match self.test_print_to_string(indent) {
            Ok(s) => {
                push_str(out, s.as_str());
                Ok(())
            },
            Err(e) => Err(e),
        }
    }
}

} // verus!
