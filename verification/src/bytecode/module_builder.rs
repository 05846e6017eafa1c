//! Building bytecode modules: constants and functions.
use vstd::prelude::*;
use vstd::utf8::*;
use crate::base::error::FelicoResult;
use crate::bytecode::instruction::Instruction;
use crate::bytecode::module::{
    spec_constant_text, spec_get_constant, ConstantPoolEntry, ConstantType, FunctionEntry, Module,
};
use crate::bytecode::op_code::OpCode;
use crate::bytecode::slot::Slot;
use crate::text::string_into_bytes;

verus! {

/// The index of an entry in a module's constant pool.
#[derive(Copy, Clone, Debug)]
pub struct ConstantIndex {
    index: u16,
}

impl ConstantIndex {
    /// The constant index with the given value.
    pub fn new(index: u16) -> (c: Self)
        ensures
            c.spec_index() == index,
    {
        Self { index }
    }

    /// The value of the index, in specifications.
    pub closed spec fn spec_index(&self) -> u16 {
        self.index
    }

    /// The value of the index.
    pub fn index(&self) -> (i: u16)
        ensures
            i == self.spec_index(),
    {
        self.index
    }
}

impl From<u16> for ConstantIndex {
    fn from(value: u16) -> (c: Self) {
        Self { index: value }
    }
}

impl vstd::std_specs::convert::FromSpecImpl<u16> for ConstantIndex {
    open spec fn obeys_from_spec() -> bool {
        true
    }

    closed spec fn from_spec(v: u16) -> Self {
        ConstantIndex { index: v }
    }
}

/// Converting a `u16` into a constant index keeps the value, as `ConstantIndex::new` does.
pub proof fn law_constant_index_from(value: u16)
    ensures
        <ConstantIndex as vstd::std_specs::convert::FromSpec<u16>>::from_spec(value).spec_index()
            == value,
{
}

/// Builds a module: collects constants and functions.
pub struct ModuleBuilder {
    name: String,
    constant_pool: Vec<ConstantPoolEntry>,
    functions: Vec<FunctionEntry>,
}

/// Builds one function of a module; `finish` hands the module builder back with
/// the function added.
pub struct FunctionBuilder {
    module_builder: ModuleBuilder,
    pub name_constant: ConstantIndex,
    instructions: Vec<Instruction>,
}

/// The index that a constant pool of `len` entries gives its newest entry
/// (the length after the push, as 16 bits, minus one).
pub open spec fn newest_index(len: nat) -> int {
    (len % 65536) as int - 1
}

/// The constant-pool entry holding the UTF-8 bytes of `s` with type `t`.
pub open spec fn is_text_entry(e: ConstantPoolEntry, t: ConstantType, s: Seq<char>) -> bool {
    e.spec_constant_type() == t && e.spec_data() == encode_utf8(s)
}

/// `i` is the instruction `op` storing constant `index` into `dst`.
pub open spec fn is_constant_instruction(i: Instruction, op: OpCode, dst: Slot, index: u16) -> bool {
    &&& i.spec_op_code() == op
    &&& i.spec_operand_a().spec_slot() == dst
    &&& i.spec_constant_index() == index
}

impl ModuleBuilder {
    /// The module name, in specifications.
    pub closed spec fn spec_name(&self) -> Seq<char> {
        self.name@
    }

    /// The constants added so far, in specifications.
    pub closed spec fn spec_constants(&self) -> Seq<ConstantPoolEntry> {
        self.constant_pool@
    }

    /// The functions added so far, in specifications.
    pub closed spec fn spec_functions(&self) -> Seq<FunctionEntry> {
        self.functions@
    }

    /// An empty module named `name`.
    pub fn new(name: &str) -> (b: Self)
        ensures
            b.spec_name() == name@,
            b.spec_constants().len() == 0,
            b.spec_functions().len() == 0,
    {
        Self { name: name.to_owned(), constant_pool: Vec::new(), functions: Vec::new() }
    }

    /// The module with everything added so far.
    pub fn build(self) -> (m: Module)
        ensures
            m.name@ == self.spec_name(),
            m.constant_pool@ == self.spec_constants(),
            m.functions@ == self.spec_functions(),
    {
        Module { name: self.name, constant_pool: self.constant_pool, functions: self.functions }
    }

    fn add_text(&mut self, string: &str, constant_type: ConstantType) -> (c: ConstantIndex)
        requires
            (old(self).spec_constants().len() + 1) % 65536 != 0,
        ensures
            final(self).spec_name() == old(self).spec_name(),
            final(self).spec_functions() == old(self).spec_functions(),
            final(self).spec_constants().len() == old(self).spec_constants().len() + 1,
            final(self).spec_constants().drop_last() == old(self).spec_constants(),
            is_text_entry(final(self).spec_constants().last(), constant_type, string@),
            c.spec_index() as int == newest_index(final(self).spec_constants().len()),
    {
        let bytes = string_into_bytes(string.to_owned());
        let entry = ConstantPoolEntry::new(constant_type, bytes);
        self.constant_pool.push(entry);
        let len = self.constant_pool.len();
        let short = len as u16;
        assert(short == len % 65536) by (bit_vector)
            requires short == len as u16;
        assert(self.constant_pool@.drop_last() =~= old(self).constant_pool@);
        ConstantIndex::new(short - 1)
    }

    /// Adds a string constant; returns its index.
    pub fn add_string(&mut self, string: &str) -> (c: ConstantIndex)
        requires
            (old(self).spec_constants().len() + 1) % 65536 != 0,
        ensures
            final(self).spec_name() == old(self).spec_name(),
            final(self).spec_functions() == old(self).spec_functions(),
            final(self).spec_constants().len() == old(self).spec_constants().len() + 1,
            final(self).spec_constants().drop_last() == old(self).spec_constants(),
            is_text_entry(final(self).spec_constants().last(), ConstantType::String, string@),
            c.spec_index() as int == newest_index(final(self).spec_constants().len()),
    {
        self.add_text(string, ConstantType::String)
    }

    /// Adds a function-import constant; returns its index.
    pub fn add_function_import(&mut self, function_name: &str) -> (c: ConstantIndex)
        requires
            (old(self).spec_constants().len() + 1) % 65536 != 0,
        ensures
            final(self).spec_name() == old(self).spec_name(),
            final(self).spec_functions() == old(self).spec_functions(),
            final(self).spec_constants().len() == old(self).spec_constants().len() + 1,
            final(self).spec_constants().drop_last() == old(self).spec_constants(),
            is_text_entry(
                final(self).spec_constants().last(),
                ConstantType::FunctionImport,
                function_name@,
            ),
            c.spec_index() as int == newest_index(final(self).spec_constants().len()),
    {
        self.add_text(function_name, ConstantType::FunctionImport)
    }

    /// Starts a function named `name` (its name becomes a string constant).
    pub fn build_function(self, name: &str) -> (f: FunctionBuilder)
        requires
            (self.spec_constants().len() + 1) % 65536 != 0,
        ensures
            f.spec_module().spec_name() == self.spec_name(),
            f.spec_module().spec_functions() == self.spec_functions(),
            f.spec_module().spec_constants() == self.spec_constants().push(
                f.spec_module().spec_constants().last(),
            ),
            is_text_entry(f.spec_module().spec_constants().last(), ConstantType::String, name@),
            f.spec_name_constant().spec_index() as int == newest_index(f.spec_module().spec_constants().len()),
            f.spec_instructions().len() == 0,
            spec_started(self, name@, f),
    {
        let mut module_builder = self;
        let name_constant = module_builder.add_string(name);
        proof {
            assert(module_builder.spec_constants() =~= self.spec_constants().push(
                module_builder.spec_constants().last(),
            ));
        }
        FunctionBuilder { module_builder, name_constant, instructions: Vec::new() }
    }
}

impl FunctionBuilder {
    /// The module builder being extended, in specifications.
    pub closed spec fn spec_module(&self) -> ModuleBuilder {
        self.module_builder
    }

    /// The constant naming the function, in specifications.
    pub closed spec fn spec_name_constant(&self) -> ConstantIndex {
        self.name_constant
    }

    /// The instructions emitted so far, in specifications.
    pub closed spec fn spec_instructions(&self) -> Seq<Instruction> {
        self.instructions@
    }

    /// Emits the instructions that load a string constant: its address into
    /// `ptr_dst_slot`, its length into `length_dst_slot` (the string is added to
    /// the constant pool).
    pub fn load_string(&mut self, ptr_dst_slot: Slot, length_dst_slot: Slot, string: &str) -> (r:
        FelicoResult<()>)
        requires
            (old(self).spec_module().spec_constants().len() + 1) % 65536 != 0,
        ensures
            r is Ok,
            spec_recorded(*old(self), *final(self)),
            final(self).spec_name_constant() == old(self).spec_name_constant(),
            final(self).spec_module().spec_name() == old(self).spec_module().spec_name(),
            final(self).spec_module().spec_functions() == old(self).spec_module().spec_functions(),
            final(self).spec_module().spec_constants().drop_last() == old(self).spec_module().spec_constants(),
            final(self).spec_module().spec_constants().len() == old(self).spec_module().spec_constants().len() + 1,
            is_text_entry(
                final(self).spec_module().spec_constants().last(),
                ConstantType::String,
                string@,
            ),
            final(self).spec_instructions().len() == old(self).spec_instructions().len() + 2,
            final(self).spec_instructions().subrange(0, old(self).spec_instructions().len() as int)
                == old(self).spec_instructions(),
            is_constant_instruction(
                final(self).spec_instructions()[old(self).spec_instructions().len() as int],
                OpCode::StoreConstant,
                ptr_dst_slot,
                newest_index(final(self).spec_module().spec_constants().len()) as u16,
            ),
            is_constant_instruction(
                final(self).spec_instructions().last(),
                OpCode::StoreConstantLength,
                length_dst_slot,
                newest_index(final(self).spec_module().spec_constants().len()) as u16,
            ),
    {
        let string_constant = self.module_builder.add_string(string);
        let instruction = match Instruction::store_constant(ptr_dst_slot, string_constant) {
            Ok(i) => i,
            Err(e) => { return Err(e); },
        };
        self.instructions.push(instruction);
        let instruction = match Instruction::store_constant_length(length_dst_slot, string_constant) {
            Ok(i) => i,
            Err(e) => { return Err(e); },
        };
        self.instructions.push(instruction);
        assert(self.instructions@.subrange(0, old(self).instructions@.len() as int)
            =~= old(self).instructions@);
        assert(self.module_builder.spec_constants().subrange(
            0,
            old(self).module_builder.spec_constants().len() as int,
        ) =~= old(self).module_builder.spec_constants());
        Ok(())
    }

    /// Emits `StoreFunction`: the function named by constant `function_index` into `dst_slot`.
    pub fn store_function(&mut self, dst_slot: Slot, function_index: ConstantIndex) -> (r:
        FelicoResult<()>)
        ensures
            r is Ok,
            spec_recorded(*old(self), *final(self)),
            final(self).spec_name_constant() == old(self).spec_name_constant(),
            final(self).spec_module() == old(self).spec_module(),
            final(self).spec_instructions().drop_last() == old(self).spec_instructions(),
            final(self).spec_instructions().len() == old(self).spec_instructions().len() + 1,
            is_constant_instruction(
                final(self).spec_instructions().last(),
                OpCode::StoreFunction,
                dst_slot,
                function_index.spec_index(),
            ),
    {
        let instruction = match Instruction::store_function(dst_slot, function_index) {
            Ok(i) => i,
            Err(e) => { return Err(e); },
        };
        self.instructions.push(instruction);
        assert(self.instructions@.drop_last() =~= old(self).instructions@);
        proof {
            law_recorded_reflexive(*old(self));
            assert(self.instructions@.subrange(0, old(self).instructions@.len() as int)
                =~= old(self).instructions@);
        }
        Ok(())
    }

    /// Emits `Call`: calls the function in `fun_slot`, the result going to `return_slot`.
    pub fn call(&mut self, fun_slot: Slot, return_slot: Slot) -> (r: FelicoResult<()>)
        ensures
            r is Ok,
            spec_recorded(*old(self), *final(self)),
            final(self).spec_name_constant() == old(self).spec_name_constant(),
            final(self).spec_module() == old(self).spec_module(),
            final(self).spec_instructions().drop_last() == old(self).spec_instructions(),
            final(self).spec_instructions().len() == old(self).spec_instructions().len() + 1,
            final(self).spec_instructions().last().spec_op_code() == OpCode::Call,
            final(self).spec_instructions().last().spec_operand_a().spec_slot() == fun_slot,
            final(self).spec_instructions().last().spec_operand_b().spec_slot() == return_slot,
            final(self).spec_instructions().last().spec_operand_c().spec_slot().spec_index() == 0,
    {
        let instruction = match Instruction::call(fun_slot, return_slot) {
            Ok(i) => i,
            Err(e) => { return Err(e); },
        };
        self.instructions.push(instruction);
        assert(self.instructions@.drop_last() =~= old(self).instructions@);
        proof {
            law_recorded_reflexive(*old(self));
            assert(self.instructions@.subrange(0, old(self).instructions@.len() as int)
                =~= old(self).instructions@);
        }
        Ok(())
    }

    /// Emits `Return`.
    pub fn ret(&mut self) -> (r: FelicoResult<()>)
        ensures
            r is Ok,
            spec_recorded(*old(self), *final(self)),
            final(self).spec_name_constant() == old(self).spec_name_constant(),
            final(self).spec_module() == old(self).spec_module(),
            final(self).spec_instructions().drop_last() == old(self).spec_instructions(),
            final(self).spec_instructions().len() == old(self).spec_instructions().len() + 1,
            final(self).spec_instructions().last().spec_op_code() == OpCode::Return,
            final(self).spec_instructions().last().spec_operand_a().spec_slot().spec_index() == 0,
            final(self).spec_instructions().last().spec_operand_b().spec_slot().spec_index() == 0,
            final(self).spec_instructions().last().spec_operand_c().spec_slot().spec_index() == 0,
    {
        let instruction = match Instruction::ret() {
            Ok(i) => i,
            Err(e) => { return Err(e); },
        };
        self.instructions.push(instruction);
        assert(self.instructions@.drop_last() =~= old(self).instructions@);
        proof {
            law_recorded_reflexive(*old(self));
            assert(self.instructions@.subrange(0, old(self).instructions@.len() as int)
                =~= old(self).instructions@);
        }
        Ok(())
    }

    /// Ends the function: the module builder with the function (its name
    /// constant and its instructions) appended.
    pub fn finish(self) -> (m: ModuleBuilder)
        ensures
            m.spec_name() == self.spec_module().spec_name(),
            m.spec_constants() == self.spec_module().spec_constants(),
            m.spec_functions().drop_last() == self.spec_module().spec_functions(),
            m.spec_functions().len() == self.spec_module().spec_functions().len() + 1,
            m.spec_functions().last().spec_name_constant() == self.spec_name_constant(),
            m.spec_functions().last().spec_instructions() == self.spec_instructions(),
            spec_finished(self, m),
    {
        let FunctionBuilder { module_builder, name_constant, instructions } = self;
        let mut module_builder = module_builder;
        module_builder.functions.push(FunctionEntry::new(name_constant, instructions));
        assert(module_builder.functions@.drop_last() =~= self.module_builder.functions@);
        module_builder
    }
}



/// `f` is what `build_function(name)` makes of `b`: the name added as the newest string
/// constant, the name constant that index, and no instructions yet.
pub open spec fn spec_started(b: ModuleBuilder, name: Seq<char>, f: FunctionBuilder) -> bool {
    &&& f.spec_module().spec_name() == b.spec_name()
    &&& f.spec_module().spec_functions() == b.spec_functions()
    &&& f.spec_module().spec_constants() == b.spec_constants().push(f.spec_module().spec_constants().last())
    &&& is_text_entry(f.spec_module().spec_constants().last(), ConstantType::String, name)
    &&& f.spec_name_constant().spec_index() as int == newest_index(f.spec_module().spec_constants().len())
    &&& f.spec_instructions().len() == 0
}

/// `g` is `f` with more instructions recorded: the name constant, the module's name and
/// functions stay; the constants and the instructions of `f` stay in front.
pub open spec fn spec_recorded(f: FunctionBuilder, g: FunctionBuilder) -> bool {
    &&& g.spec_name_constant() == f.spec_name_constant()
    &&& g.spec_module().spec_name() == f.spec_module().spec_name()
    &&& g.spec_module().spec_functions() == f.spec_module().spec_functions()
    &&& f.spec_module().spec_constants().len() <= g.spec_module().spec_constants().len()
    &&& g.spec_module().spec_constants().subrange(0, f.spec_module().spec_constants().len() as int)
        == f.spec_module().spec_constants()
    &&& f.spec_instructions().len() <= g.spec_instructions().len()
    &&& g.spec_instructions().subrange(0, f.spec_instructions().len() as int) == f.spec_instructions()
}

/// `m` is what `finish` makes of `f`: its module with one function appended, named by
/// the name constant and holding the recorded instructions.
pub open spec fn spec_finished(f: FunctionBuilder, m: ModuleBuilder) -> bool {
    &&& m.spec_name() == f.spec_module().spec_name()
    &&& m.spec_constants() == f.spec_module().spec_constants()
    &&& m.spec_functions().drop_last() == f.spec_module().spec_functions()
    &&& m.spec_functions().len() == f.spec_module().spec_functions().len() + 1
    &&& m.spec_functions().last().spec_name_constant() == f.spec_name_constant()
    &&& m.spec_functions().last().spec_instructions() == f.spec_instructions()
}

/// Recording nothing is recording.
pub proof fn law_recorded_reflexive(f: FunctionBuilder)
    ensures
        spec_recorded(f, f),
{
    assert(f.spec_module().spec_constants().subrange(0, f.spec_module().spec_constants().len() as int)
        =~= f.spec_module().spec_constants());
    assert(f.spec_instructions().subrange(0, f.spec_instructions().len() as int) =~= f.spec_instructions());
}

/// Recording, then recording more, is recording.
pub proof fn law_recorded_transitive(f: FunctionBuilder, g: FunctionBuilder, h: FunctionBuilder)
    requires
        spec_recorded(f, g),
        spec_recorded(g, h),
    ensures
        spec_recorded(f, h),
{
    let fc = f.spec_module().spec_constants();
    let gc = g.spec_module().spec_constants();
    let hc = h.spec_module().spec_constants();
    assert(hc.subrange(0, fc.len() as int) =~= gc.subrange(0, fc.len() as int));
    let fi = f.spec_instructions();
    let gi = g.spec_instructions();
    let hi = h.spec_instructions();
    assert(hi.subrange(0, fi.len() as int) =~= gi.subrange(0, fi.len() as int));
}

/// Building a function: starting it on a builder with `k` constants (fewer than 65535),
/// recording instructions and finishing gives the module's name and functions, followed by
/// exactly one function whose name constant is at index `k`, holding the name as a string,
/// with the recorded instructions; the first `k` constants stay as they were.
pub proof fn law_build_function(
    b: ModuleBuilder,
    name: Seq<char>,
    started: FunctionBuilder,
    recorded: FunctionBuilder,
    m: ModuleBuilder,
)
    requires
        b.spec_constants().len() < 65535,
        spec_started(b, name, started),
        spec_recorded(started, recorded),
        spec_finished(recorded, m),
    ensures
        m.spec_name() == b.spec_name(),
        m.spec_functions() == b.spec_functions().push(m.spec_functions().last()),
        m.spec_functions().last().spec_name_constant().spec_index() == b.spec_constants().len(),
        m.spec_functions().last().spec_instructions() == recorded.spec_instructions(),
        b.spec_constants().len() < m.spec_constants().len(),
        is_text_entry(m.spec_constants()[b.spec_constants().len() as int], ConstantType::String, name),
        m.spec_constants().subrange(0, b.spec_constants().len() as int) == b.spec_constants(),
{
    let k = b.spec_constants().len();
    let sc = started.spec_module().spec_constants();
    assert(sc.len() == k + 1);
    assert(m.spec_constants()[k as int] == sc[k as int]);
    assert(m.spec_constants().subrange(0, k as int) =~= sc.subrange(0, k as int));
    assert(sc.subrange(0, k as int) =~= b.spec_constants());
    assert(m.spec_functions() =~= b.spec_functions().push(m.spec_functions().last()));
}

/// What `add_string` or `add_function_import` stores, the built module gives back: the
/// constant at the returned index reads as the text it was given, and the constants added
/// before stay as they were, for a pool of fewer than 65536 constants.
pub proof fn law_added_text_reads_back(
    before: ModuleBuilder,
    after: ModuleBuilder,
    index: ConstantIndex,
    constant_type: ConstantType,
    text: Seq<char>,
    module: Module,
    not_a: Seq<char>,
)
    requires
        after.spec_constants().len() == before.spec_constants().len() + 1,
        after.spec_constants().drop_last() == before.spec_constants(),
        is_text_entry(after.spec_constants().last(), constant_type, text),
        index.spec_index() as int == newest_index(after.spec_constants().len()),
        after.spec_constants().len() < 65536,
        module.constant_pool@ == after.spec_constants(),
    ensures
        spec_get_constant(module, index.spec_index()) == Ok::<ConstantPoolEntry, Seq<char>>(
            after.spec_constants().last(),
        ),
        spec_constant_text(after.spec_constants().last(), constant_type, not_a) == Ok::<
            Seq<char>,
            Seq<char>,
        >(text),
        forall|i: int|
            0 <= i < before.spec_constants().len() ==> #[trigger] module.constant_pool@[i]
                == before.spec_constants()[i],
{
    encode_utf8_valid_utf8(text);
    encode_utf8_decode_utf8(text);
    assert forall|i: int| 0 <= i < before.spec_constants().len() implies #[trigger] module.constant_pool@[i]
        == before.spec_constants()[i] by {
        assert(after.spec_constants().drop_last()[i] == after.spec_constants()[i]);
    }
}

} // verus!
