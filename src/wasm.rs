//! The WebAssembly sections that wasm-encoder builds, seen as sequences of
//! the entries appended to them.
use vstd::prelude::*;
use wasm_encoder::{
    CodeSection, ConstExpr, DataSection, EntityType, ExportKind, ExportSection, Function,
    FunctionSection, ImportSection, Instruction, MemorySection, MemoryType, Module, TypeSection,
    ValType,
};

verus! {

#[verifier::external_type_specification]
#[verifier::external_body]
pub struct ExTypeSection(TypeSection);

#[verifier::external_type_specification]
#[verifier::external_body]
pub struct ExImportSection(ImportSection);

#[verifier::external_type_specification]
#[verifier::external_body]
pub struct ExFunctionSection(FunctionSection);

#[verifier::external_type_specification]
#[verifier::external_body]
pub struct ExMemorySection(MemorySection);

#[verifier::external_type_specification]
#[verifier::external_body]
pub struct ExExportSection(ExportSection);

#[verifier::external_type_specification]
#[verifier::external_body]
pub struct ExCodeSection(CodeSection);

#[verifier::external_type_specification]
#[verifier::external_body]
pub struct ExDataSection(DataSection);

#[verifier::external_type_specification]
#[verifier::external_body]
pub struct ExFunction(Function);

#[verifier::external_type_specification]
#[verifier::external_body]
pub struct ExValType(ValType);

/// A Wasm number type.
#[derive(Debug, Clone, Copy, PartialEq, Eq, Structural)]
pub enum ValTy {
    I32,
    I64,
    F32,
    F64,
}

/// A Wasm instruction of the subset that lowering emits.
#[derive(Debug, Clone, Copy, PartialEq, Eq, Structural)]
pub enum WasmInstr {
    Nop,
    Return,
    LocalGet(u32),
    I32Const(i32),
    Call(u32),
    End,
}

/// The function types added to a type section, as (params, results).
pub uninterp spec fn types_of(s: TypeSection) -> Seq<(Seq<ValTy>, Seq<ValTy>)>;

/// The imports added to an import section, as (module, name, type index).
pub uninterp spec fn imports_of(s: ImportSection) -> Seq<(Seq<char>, Seq<char>, u32)>;

/// The type indices of the functions declared in a function section.
pub uninterp spec fn functions_of(s: FunctionSection) -> Seq<u32>;

/// The memories declared in a memory section, as (minimum, maximum) pages.
pub uninterp spec fn memories_of(s: MemorySection) -> Seq<(u64, Option<u64>)>;

/// The function exports added to an export section, as (name, function index).
pub uninterp spec fn exports_of(s: ExportSection) -> Seq<(Seq<char>, u32)>;

/// The function bodies added to a code section, as (locals, instructions).
pub uninterp spec fn codes_of(s: CodeSection) -> Seq<(Seq<ValTy>, Seq<WasmInstr>)>;

/// The active segments added to a data section, as (memory, offset, bytes).
pub uninterp spec fn data_of(s: DataSection) -> Seq<(u32, i32, Seq<u8>)>;

/// The locals and instructions of a function body under construction.
pub uninterp spec fn function_of(f: Function) -> (Seq<ValTy>, Seq<WasmInstr>);

/// The bytes of a module made of the given sections, in this order.
pub uninterp spec fn module_bytes(
    types: Seq<(Seq<ValTy>, Seq<ValTy>)>,
    imports: Seq<(Seq<char>, Seq<char>, u32)>,
    functions: Seq<u32>,
    memories: Seq<(u64, Option<u64>)>,
    exports: Seq<(Seq<char>, u32)>,
    codes: Seq<(Seq<ValTy>, Seq<WasmInstr>)>,
    data: Seq<(u32, i32, Seq<u8>)>,
) -> Seq<u8>;

/// Relies on TypeSection::new: an empty type section.
#[verifier::external_body]
pub(crate) fn type_section_new() -> (r: TypeSection)
    ensures
        types_of(r) == Seq::<(Seq<ValTy>, Seq<ValTy>)>::empty(),
{
    TypeSection::new()
}

/// Relies on TypeSection::len: the number of types added.
#[verifier::external_body]
pub(crate) fn type_section_len(s: &TypeSection) -> (r: u32)
    ensures
        r == types_of(*s).len(),
{
    s.len()
}

/// Relies on TypeSection::ty and CoreTypeEncoder::function: appends one
/// function type; the count of added types is a `u32`.
#[verifier::external_body]
pub(crate) fn type_section_add(s: &mut TypeSection, params: &Vec<ValTy>, results: &Vec<ValTy>)
    requires
        types_of(*old(s)).len() < u32::MAX,
    ensures
        types_of(*final(s)) == types_of(*old(s)).push((params@, results@)),
{
    s.ty().function(params.iter().map(|v| val_type(*v)), results.iter().map(|v| val_type(*v)));
}

/// Relies on ImportSection::new: an empty import section.
#[verifier::external_body]
pub(crate) fn import_section_new() -> (r: ImportSection)
    ensures
        imports_of(r) == Seq::<(Seq<char>, Seq<char>, u32)>::empty(),
{
    ImportSection::new()
}

/// Relies on ImportSection::len: the number of imports added.
#[verifier::external_body]
pub(crate) fn import_section_len(s: &ImportSection) -> (r: u32)
    ensures
        r == imports_of(*s).len(),
{
    s.len()
}

/// Relies on ImportSection::import: appends a function import.
#[verifier::external_body]
pub(crate) fn import_section_add(s: &mut ImportSection, module: &str, name: &str, type_index: u32)
    requires
        imports_of(*old(s)).len() < u32::MAX,
    ensures
        imports_of(*final(s)) == imports_of(*old(s)).push((module@, name@, type_index)),
{
    s.import(module, name, EntityType::Function(type_index));
}

/// Relies on FunctionSection::new: an empty function section.
#[verifier::external_body]
pub(crate) fn function_section_new() -> (r: FunctionSection)
    ensures
        functions_of(r) == Seq::<u32>::empty(),
{
    FunctionSection::new()
}

/// Relies on FunctionSection::len: the number of functions declared.
#[verifier::external_body]
pub(crate) fn function_section_len(s: &FunctionSection) -> (r: u32)
    ensures
        r == functions_of(*s).len(),
{
    s.len()
}

/// Relies on FunctionSection::function: declares a function of a type.
#[verifier::external_body]
pub(crate) fn function_section_add(s: &mut FunctionSection, type_index: u32)
    requires
        functions_of(*old(s)).len() < u32::MAX,
    ensures
        functions_of(*final(s)) == functions_of(*old(s)).push(type_index),
{
    s.function(type_index);
}

/// Relies on MemorySection::new: an empty memory section.
#[verifier::external_body]
pub(crate) fn memory_section_new() -> (r: MemorySection)
    ensures
        memories_of(r) == Seq::<(u64, Option<u64>)>::empty(),
{
    MemorySection::new()
}

/// Relies on MemorySection::memory: declares a 32-bit, unshared memory with
/// the default page size.
#[verifier::external_body]
pub(crate) fn memory_section_add(s: &mut MemorySection, minimum: u64, maximum: Option<u64>)
    requires
        memories_of(*old(s)).len() < u32::MAX,
    ensures
        memories_of(*final(s)) == memories_of(*old(s)).push((minimum, maximum)),
{
    s.memory(MemoryType { minimum, maximum, memory64: false, shared: false, page_size_log2: None });
}

/// Relies on ExportSection::new: an empty export section.
#[verifier::external_body]
pub(crate) fn export_section_new() -> (r: ExportSection)
    ensures
        exports_of(r) == Seq::<(Seq<char>, u32)>::empty(),
{
    ExportSection::new()
}

/// Relies on ExportSection::export: appends a function export.
#[verifier::external_body]
pub(crate) fn export_section_add(s: &mut ExportSection, name: &str, function_index: u32)
    requires
        exports_of(*old(s)).len() < u32::MAX,
    ensures
        exports_of(*final(s)) == exports_of(*old(s)).push((name@, function_index)),
{
    s.export(name, ExportKind::Func, function_index);
}

/// Relies on CodeSection::new: an empty code section.
#[verifier::external_body]
pub(crate) fn code_section_new() -> (r: CodeSection)
    ensures
        codes_of(r) == Seq::<(Seq<ValTy>, Seq<WasmInstr>)>::empty(),
{
    CodeSection::new()
}

/// Relies on CodeSection::len: the number of bodies added.
#[verifier::external_body]
pub(crate) fn code_section_len(s: &CodeSection) -> (r: u32)
    ensures
        r == codes_of(*s).len(),
{
    s.len()
}

/// Relies on CodeSection::function: appends a function body.
#[verifier::external_body]
pub(crate) fn code_section_add(s: &mut CodeSection, f: &Function)
    requires
        codes_of(*old(s)).len() < u32::MAX,
    ensures
        codes_of(*final(s)) == codes_of(*old(s)).push(function_of(*f)),
{
    s.function(f);
}

/// Relies on DataSection::new: an empty data section.
#[verifier::external_body]
pub(crate) fn data_section_new() -> (r: DataSection)
    ensures
        data_of(r) == Seq::<(u32, i32, Seq<u8>)>::empty(),
{
    DataSection::new()
}

/// Relies on DataSection::active: appends an active segment whose offset is
/// an `i32.const` expression.
#[verifier::external_body]
pub(crate) fn data_section_add(s: &mut DataSection, memory: u32, offset: i32, bytes: &[u8])
    requires
        data_of(*old(s)).len() < u32::MAX,
    ensures
        data_of(*final(s)) == data_of(*old(s)).push((memory, offset, bytes@)),
{
    s.active(memory, &ConstExpr::i32_const(offset), bytes.iter().copied());
}

/// Relies on Function::new_with_locals_types: a body with one local of each
/// given type and no instructions yet.
#[verifier::external_body]
pub(crate) fn function_new(locals: &Vec<ValTy>) -> (r: Function)
    ensures
        function_of(r) == (locals@, Seq::<WasmInstr>::empty()),
{
    Function::new_with_locals_types(locals.iter().map(|v| val_type(*v)))
}

/// Relies on Function::instruction: appends one instruction.
#[verifier::external_body]
pub(crate) fn function_add(f: &mut Function, i: WasmInstr)
    ensures
        function_of(*final(f)) == (function_of(*old(f)).0, function_of(*old(f)).1.push(i)),
{
    match i {
        WasmInstr::Nop => f.instruction(&Instruction::Nop),
        WasmInstr::Return => f.instruction(&Instruction::Return),
        WasmInstr::LocalGet(n) => f.instruction(&Instruction::LocalGet(n)),
        WasmInstr::I32Const(v) => f.instruction(&Instruction::I32Const(v)),
        WasmInstr::Call(n) => f.instruction(&Instruction::Call(n)),
        WasmInstr::End => f.instruction(&Instruction::End),
    };
}

/// Relies on Module::new, Module::section and Module::finish: the module
/// bytes with the seven sections in the order given; a module starts with
/// the magic `\0asm` and version 1.
#[verifier::external_body]
pub(crate) fn encode_module(
    types: &TypeSection,
    imports: &ImportSection,
    functions: &FunctionSection,
    memory: &MemorySection,
    exports: &ExportSection,
    codes: &CodeSection,
    data: &DataSection,
) -> (r: Vec<u8>)
    ensures
        r@ == module_bytes(
            types_of(*types),
            imports_of(*imports),
            functions_of(*functions),
            memories_of(*memory),
            exports_of(*exports),
            codes_of(*codes),
            data_of(*data),
        ),
        r@.len() >= 8,
        r@.subrange(0, 8) == seq![0x00u8, 0x61, 0x73, 0x6d, 0x01, 0x00, 0x00, 0x00],
{
    let mut m = Module::new();
    m.section(types).section(imports).section(functions).section(memory);
    m.section(exports).section(codes).section(data);
    m.finish()
}

/// Converts a number type to wasm-encoder's `ValType` variant of the same name.
#[verifier::external_body]
fn val_type(v: ValTy) -> ValType {
    match v {
        ValTy::I32 => ValType::I32,
        ValTy::I64 => ValType::I64,
        ValTy::F32 => ValType::F32,
        ValTy::F64 => ValType::F64,
    }
}

} // verus!
