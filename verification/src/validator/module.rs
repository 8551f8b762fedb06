//! The state of a module that is being validated.

use super::features::WasmFeatures;
use super::names::{has_name, NameMap};
use super::types::{
    exports_ok, imports_ok, is_func_type, starts_with, DefinedType, DefinedTypeView, EntityType,
    ModuleImport, ModuleImportView, TypeList,
};
use super::{check_max, max_check};
use crate::error::{error_at, number_error_at, viewed, word_error_at, BinaryReaderError, Result};
use crate::limits::{
    MAX_WASM_FUNCTIONS, MAX_WASM_GLOBALS, MAX_WASM_MEMORIES, MAX_WASM_MEMORY32_PAGES,
    MAX_WASM_MEMORY64_PAGES, MAX_WASM_TABLES, MAX_WASM_TABLE_ENTRIES, MAX_WASM_TAGS,
};
use crate::reader::binary_reader::Cursor;
use crate::reader::operators::{
    parse_operator, read_operator, ConstExpr, Op, Operator, OperatorView, Params, Simple,
};
use crate::reader::sections::{
    Data, DataKind, DataKindView, DataView, Element, ElementItems, ElementItemsView, ElementKind,
    ElementKindView, ElementView, Global, GlobalView, Placed, PlacedView,
};
use crate::reader::types::{
    copy_types, views, Export, ExportView, ExternalKind, FuncType, FuncTypeView, GlobalType, Import,
    ImportView, MemoryType, TableType, TagType, Type, TypeDef, TypeDefView, TypeRef,
};
use std::collections::HashSet;
use vstd::prelude::*;

verus! {

broadcast use vstd::std_specs::hash::group_hash_axioms;

/// The order of the sections of a module.
#[derive(Debug, Copy, Clone, PartialEq, Eq, Structural)]
pub enum Order {
    Initial,
    Type,
    Import,
    Function,
    Table,
    Memory,
    Tag,
    Global,
    Export,
    Start,
    Element,
    DataCount,
    Code,
    Data,
}

impl Order {
    /// The place of a section among the others.
    pub open spec fn place(self) -> int {
        match self {
            Order::Initial => 0,
            Order::Type => 1,
            Order::Import => 2,
            Order::Function => 3,
            Order::Table => 4,
            Order::Memory => 5,
            Order::Tag => 6,
            Order::Global => 7,
            Order::Export => 8,
            Order::Start => 9,
            Order::Element => 10,
            Order::DataCount => 11,
            Order::Code => 12,
            Order::Data => 13,
        }
    }

    /// The place of a section among the others.
    pub fn rank(self) -> (place: u8)
        ensures
            place == self.place(),
    {
        match self {
            Order::Initial => 0,
            Order::Type => 1,
            Order::Import => 2,
            Order::Function => 3,
            Order::Table => 4,
            Order::Memory => 5,
            Order::Tag => 6,
            Order::Global => 7,
            Order::Export => 8,
            Order::Start => 9,
            Order::Element => 10,
            Order::DataCount => 11,
            Order::Code => 12,
            Order::Data => 13,
        }
    }
}

/// What is known of a module.
pub struct Module {
    /// The types, as they were when the code section started.
    pub snapshot: Option<TypeList>,
    /// The places of the module's types in the list of all types.
    pub types: Vec<usize>,
    /// The tables.
    pub tables: Vec<TableType>,
    /// The memories.
    pub memories: Vec<MemoryType>,
    /// The globals.
    pub globals: Vec<GlobalType>,
    /// The types of the element segments.
    pub element_types: Vec<Type>,
    /// How many data segments the data count section promises.
    pub data_count: Option<u32>,
    /// The indices of the types of the functions.
    pub functions: Vec<u32>,
    /// The places of the types of the tags in the list of all types.
    pub tags: Vec<usize>,
    /// The functions that code can make references to.
    pub function_references: HashSet<u32>,
    /// The imports.
    pub imports: Vec<ModuleImport>,
    /// The exports.
    pub exports: NameMap<EntityType>,
    /// How many functions are imported.
    pub num_imported_functions: usize,
    /// How many globals are imported.
    pub num_imported_globals: usize,
}

/// What a [`Module`] holds.
#[verifier::ext_equal]
pub struct ModuleView {
    /// The types, as they were when the code section started.
    pub snapshot: Option<Seq<DefinedTypeView>>,
    /// The places of the module's types in the list of all types.
    pub types: Seq<usize>,
    /// The tables.
    pub tables: Seq<TableType>,
    /// The memories.
    pub memories: Seq<MemoryType>,
    /// The globals.
    pub globals: Seq<GlobalType>,
    /// The types of the element segments.
    pub element_types: Seq<Type>,
    /// How many data segments the data count section promises.
    pub data_count: Option<u32>,
    /// The indices of the types of the functions.
    pub functions: Seq<u32>,
    /// The places of the types of the tags in the list of all types.
    pub tags: Seq<usize>,
    /// The functions that code can make references to.
    pub function_references: Set<u32>,
    /// The imports.
    pub imports: Seq<ModuleImportView>,
    /// The exports.
    pub exports: Seq<(Seq<char>, EntityType)>,
    /// How many functions are imported.
    pub num_imported_functions: int,
    /// How many globals are imported.
    pub num_imported_globals: int,
}

impl View for Module {
    type V = ModuleView;

    open spec fn view(&self) -> ModuleView {
        ModuleView {
            snapshot: match self.snapshot {
                Some(types) => Some(types@),
                None => None,
            },
            types: self.types@,
            tables: self.tables@,
            memories: self.memories@,
            globals: self.globals@,
            element_types: self.element_types@,
            data_count: self.data_count,
            functions: self.functions@,
            tags: self.tags@,
            function_references: self.function_references@,
            imports: views(self.imports@),
            exports: self.exports@,
            num_imported_functions: self.num_imported_functions as int,
            num_imported_globals: self.num_imported_globals as int,
        }
    }
}

/// The name of a value type in errors.
pub open spec fn name_of(ty: Type) -> &'static str {
    match ty {
        Type::I32 => "i32",
        Type::I64 => "i64",
        Type::F32 => "f32",
        Type::F64 => "f64",
        Type::V128 => "v128",
        Type::FuncRef => "funcref",
        Type::ExternRef => "externref",
    }
}

/// The name of a value type in errors.
pub fn type_to_str(ty: Type) -> (name: &'static str)
    ensures
        name == name_of(ty),
{
    match ty {
        Type::I32 => "i32",
        Type::I64 => "i64",
        Type::F32 => "f32",
        Type::F64 => "f64",
        Type::V128 => "v128",
        Type::FuncRef => "funcref",
        Type::ExternRef => "externref",
    }
}

/// The error for floats where only deterministic operators are allowed.
pub open spec fn floats_at(features: WasmFeatures, offset: int) -> Result<()> {
    if features.deterministic_only {
        Err(error_at("deterministic_only disabled floats", offset))
    } else {
        Ok(())
    }
}

/// Checks that computing with floats is allowed.
pub fn check_floats(features: &WasmFeatures, offset: usize) -> (result: Result<()>)
    ensures
        result == floats_at(*features, offset as int),
{
    if features.deterministic_only {
        Err(BinaryReaderError::new("deterministic_only disabled floats", offset))
    } else {
        Ok(())
    }
}

/// The error for a limit below the first size.
pub open spec fn limits_at(initial: u64, maximum: Option<u64>, offset: int) -> Result<()> {
    match maximum {
        Some(max) => if initial > max {
            Err(error_at("size minimum must not be greater than maximum", offset))
        } else {
            Ok(())
        },
        None => Ok(()),
    }
}

fn check_limits(initial: u64, maximum: Option<u64>, offset: usize) -> (result: Result<()>)
    ensures
        result == limits_at(initial, maximum, offset as int),
{
    match maximum {
        Some(max) => if initial > max {
            Err(BinaryReaderError::new("size minimum must not be greater than maximum", offset))
        } else {
            Ok(())
        },
        None => Ok(()),
    }
}

/// Why the type of a table is refused, if it is.
pub open spec fn table_type_at(ty: TableType, features: WasmFeatures, offset: int) -> Result<()> {
    if ty.element_type != Type::FuncRef && features.value_type_at(ty.element_type, offset) is Err {
        features.value_type_at(ty.element_type, offset)
    } else if !ty.element_type.reference() {
        Err(error_at("element is not reference type", offset))
    } else {
        match limits_at(
            ty.initial as u64,
            match ty.maximum {
                Some(max) => Some(max as u64),
                None => None,
            },
            offset,
        ) {
            Err(e) => Err(e),
            Ok(_) => if ty.initial > MAX_WASM_TABLE_ENTRIES {
                Err(error_at("minimum table size is out of bounds", offset))
            } else {
                Ok(())
            },
        }
    }
}

/// Checks the type of a table.
pub fn check_table_type(ty: &TableType, features: &WasmFeatures, offset: usize) -> (result: Result<
    (),
>)
    ensures
        result == table_type_at(*ty, *features, offset as int),
{
    // the `funcref` value type has always been there
    if ty.element_type != Type::FuncRef {
        features.check_value_type_at(ty.element_type, offset)?;
    }
    if !ty.element_type.is_reference() {
        return Err(BinaryReaderError::new("element is not reference type", offset));
    }
    let maximum = match ty.maximum {
        Some(max) => Some(max as u64),
        None => None,
    };
    check_limits(ty.initial as u64, maximum, offset)?;
    if ty.initial as usize > MAX_WASM_TABLE_ENTRIES {
        return Err(BinaryReaderError::new("minimum table size is out of bounds", offset));
    }
    Ok(())
}

/// The error for a memory of more than `limit` pages, if it has more.
pub open spec fn pages_at(ty: MemoryType, limit: u64, text: &'static str, offset: int) -> Result<
    (),
> {
    if ty.initial > limit {
        Err(error_at(text, offset))
    } else {
        match ty.maximum {
            Some(max) => if max > limit {
                Err(error_at(text, offset))
            } else {
                Ok(())
            },
            None => Ok(()),
        }
    }
}

fn check_pages(ty: &MemoryType, limit: u64, text: &'static str, offset: usize) -> (result: Result<
    (),
>)
    ensures
        result == pages_at(*ty, limit, text, offset as int),
{
    if ty.initial > limit {
        return Err(BinaryReaderError::new(text, offset));
    }
    if let Some(max) = ty.maximum {
        if max > limit {
            return Err(BinaryReaderError::new(text, offset));
        }
    }
    Ok(())
}

/// Why the type of a memory is refused, if it is.
pub open spec fn memory_type_at(ty: MemoryType, features: WasmFeatures, offset: int) -> Result<()> {
    match limits_at(ty.initial, ty.maximum, offset) {
        Err(e) => Err(e),
        Ok(_) => if ty.memory64 && !features.memory64 {
            Err(error_at("memory64 must be enabled for 64-bit memories", offset))
        } else {
            match (if ty.memory64 {
                pages_at(
                    ty,
                    MAX_WASM_MEMORY64_PAGES,
                    "memory size must be at most 2**48 pages",
                    offset,
                )
            } else {
                pages_at(
                    ty,
                    MAX_WASM_MEMORY32_PAGES,
                    "memory size must be at most 65536 pages (4GiB)",
                    offset,
                )
            }) {
                Err(e) => Err(e),
                Ok(_) => if ty.shared && !features.threads {
                    Err(error_at("threads must be enabled for shared memories", offset))
                } else if ty.shared && ty.maximum is None {
                    Err(error_at("shared memory must have maximum size", offset))
                } else {
                    Ok(())
                },
            }
        },
    }
}

/// Checks the type of a memory.
pub fn check_memory_type(ty: &MemoryType, features: &WasmFeatures, offset: usize) -> (result:
    Result<()>)
    ensures
        result == memory_type_at(*ty, *features, offset as int),
{
    check_limits(ty.initial, ty.maximum, offset)?;
    if ty.memory64 {
        if !features.memory64 {
            return Err(
                BinaryReaderError::new("memory64 must be enabled for 64-bit memories", offset),
            );
        }
        check_pages(
            ty,
            MAX_WASM_MEMORY64_PAGES,
            "memory size must be at most 2**48 pages",
            offset,
        )?;
    } else {
        check_pages(
            ty,
            MAX_WASM_MEMORY32_PAGES,
            "memory size must be at most 65536 pages (4GiB)",
            offset,
        )?;
    }
    if ty.shared {
        if !features.threads {
            return Err(
                BinaryReaderError::new("threads must be enabled for shared memories", offset),
            );
        }
        if ty.maximum.is_none() {
            return Err(BinaryReaderError::new("shared memory must have maximum size", offset));
        }
    }
    Ok(())
}

/// How many tables a module can have.
pub open spec fn table_limit(features: WasmFeatures) -> usize {
    if features.reference_types {
        MAX_WASM_TABLES
    } else {
        1
    }
}

/// How many memories a module can have.
pub open spec fn memory_limit(features: WasmFeatures) -> usize {
    if features.multi_memory {
        MAX_WASM_MEMORIES
    } else {
        1
    }
}

/// The error for a use of an index that nothing has.
pub open spec fn exported_unknown(kind: ExternalKind, index: u32, offset: int) -> BinaryReaderError {
    match kind {
        ExternalKind::Func => number_error_at(
            "unknown function ",
            index as int,
            ": exported function index out of bounds",
            offset,
        ),
        ExternalKind::Table => number_error_at(
            "unknown table ",
            index as int,
            ": exported table index out of bounds",
            offset,
        ),
        ExternalKind::Memory => number_error_at(
            "unknown memory ",
            index as int,
            ": exported memory index out of bounds",
            offset,
        ),
        ExternalKind::Global => number_error_at(
            "unknown global ",
            index as int,
            ": exported global index out of bounds",
            offset,
        ),
        ExternalKind::Tag => number_error_at(
            "unknown tag ",
            index as int,
            ": exported tag index out of bounds",
            offset,
        ),
    }
}

fn exported_unknown_error(kind: ExternalKind, index: u32, offset: usize) -> (error:
    BinaryReaderError)
    ensures
        error == exported_unknown(kind, index, offset as int),
{
    let (before, after): (&'static str, &'static str) = match kind {
        ExternalKind::Func => ("unknown function ", ": exported function index out of bounds"),
        ExternalKind::Table => ("unknown table ", ": exported table index out of bounds"),
        ExternalKind::Memory => ("unknown memory ", ": exported memory index out of bounds"),
        ExternalKind::Global => ("unknown global ", ": exported global index out of bounds"),
        ExternalKind::Tag => ("unknown tag ", ": exported tag index out of bounds"),
    };
    BinaryReaderError::with_number(before, index as u64, after, offset)
}

/// The error for a value that is not of the type that it has to be of.
pub open spec fn mismatch(expected: Type, offset: int) -> BinaryReaderError {
    word_error_at("type mismatch: expected ", name_of(expected), "", offset)
}

/// The error for a value that is missing.
pub open spec fn missing(expected: Type, offset: int) -> BinaryReaderError {
    word_error_at(
        "type mismatch: expected ",
        name_of(expected),
        " but nothing on stack",
        offset,
    )
}

/// The value on top of the stack, which has to be of a type.
pub open spec fn pop_const(stack: Seq<Type>, expected: Type, offset: int) -> Result<Seq<Type>> {
    if stack.len() == 0 {
        Err(missing(expected, offset))
    } else if stack.last() != expected {
        Err(mismatch(expected, offset))
    } else {
        Ok(stack.drop_last())
    }
}

fn pop_const_value(stack: &mut Vec<Type>, expected: Type, offset: usize) -> (result: Result<()>)
    ensures
        match pop_const(old(stack)@, expected, offset as int) {
            Ok(s) => result is Ok && final(stack)@ == s,
            Err(e) => result == Err::<(), _>(e),
        },
{
    match stack.pop() {
        Some(ty) => if ty == expected {
            Ok(())
        } else {
            Err(
                BinaryReaderError::with_word(
                    "type mismatch: expected ",
                    type_to_str(expected),
                    "",
                    offset,
                ),
            )
        },
        None => Err(
            BinaryReaderError::with_word(
                "type mismatch: expected ",
                type_to_str(expected),
                " but nothing on stack",
                offset,
            ),
        ),
    }
}

/// What an operator of a constant expression has done so far: the values on the
/// stack and the functions that references are made to.
pub struct ConstState {
    /// The types of the values on the stack.
    pub stack: Seq<Type>,
    /// The functions that references are made to.
    pub refs: Seq<u32>,
}

impl ConstState {
    /// The state with one more value.
    pub open spec fn push(self, ty: Type) -> ConstState {
        ConstState { stack: self.stack.push(ty), ..self }
    }
}

impl ModuleView {
    /// A module of which nothing is known yet.
    pub open spec fn empty() -> ModuleView {
        ModuleView {
            snapshot: None,
            types: Seq::empty(),
            tables: Seq::empty(),
            memories: Seq::empty(),
            globals: Seq::empty(),
            element_types: Seq::empty(),
            data_count: None,
            functions: Seq::empty(),
            tags: Seq::empty(),
            function_references: Set::empty(),
            imports: Seq::empty(),
            exports: Seq::empty(),
            num_imported_functions: 0,
            num_imported_globals: 0,
        }
    }

    /// All that the module says of types is true of `types`.
    pub open spec fn wf(self, types: Seq<DefinedTypeView>) -> bool {
        &&& forall|i: int| 0 <= i < self.types.len() ==> is_func_type(types, #[trigger] self.types[i])
        &&& forall|i: int|
            0 <= i < self.functions.len() ==> #[trigger] self.functions[i] < self.types.len()
        &&& forall|i: int| 0 <= i < self.tags.len() ==> is_func_type(types, #[trigger] self.tags[i])
        &&& 0 <= self.num_imported_functions <= self.functions.len()
        &&& 0 <= self.num_imported_globals <= self.globals.len()
        &&& imports_ok(self.imports, types)
        &&& exports_ok(self.exports, types)
    }

    /// The function type with an index.
    pub open spec fn func_type_at(
        self,
        types: Seq<DefinedTypeView>,
        index: u32,
        offset: int,
    ) -> Result<FuncTypeView> {
        if index >= self.types.len() {
            Err(
                number_error_at(
                    "unknown type ",
                    index as int,
                    ": type index out of bounds",
                    offset,
                ),
            )
        } else {
            Ok(types[self.types[index as int] as int]->Func_0)
        }
    }

    /// The type of a function.
    pub open spec fn get_func_type(
        self,
        types: Seq<DefinedTypeView>,
        func: u32,
        offset: int,
    ) -> Result<FuncTypeView> {
        if func >= self.functions.len() {
            Err(
                number_error_at(
                    "unknown function ",
                    func as int,
                    ": func index out of bounds",
                    offset,
                ),
            )
        } else {
            self.func_type_at(types, self.functions[func as int], offset)
        }
    }

    /// The global with an index.
    pub open spec fn global_at(self, index: u32, offset: int) -> Result<GlobalType> {
        if index < self.globals.len() {
            Ok(self.globals[index as int])
        } else {
            Err(
                number_error_at(
                    "unknown global ",
                    index as int,
                    ": global index out of bounds",
                    offset,
                ),
            )
        }
    }

    /// The table with an index.
    pub open spec fn table_at(self, index: u32, offset: int) -> Result<TableType> {
        if index < self.tables.len() {
            Ok(self.tables[index as int])
        } else {
            Err(
                number_error_at(
                    "unknown table ",
                    index as int,
                    ": table index out of bounds",
                    offset,
                ),
            )
        }
    }

    /// The memory with an index.
    pub open spec fn memory_at(self, index: u32, offset: int) -> Result<MemoryType> {
        if index < self.memories.len() {
            Ok(self.memories[index as int])
        } else {
            Err(
                number_error_at(
                    "unknown memory ",
                    index as int,
                    ": memory index out of bounds",
                    offset,
                ),
            )
        }
    }

    /// Adds a type to the module, and to the list of all types.
    pub open spec fn add_type(
        self,
        types: Seq<DefinedTypeView>,
        def: TypeDefView,
        features: WasmFeatures,
        offset: int,
    ) -> (ModuleView, Seq<DefinedTypeView>, Result<()>) {
        match def {
            TypeDefView::Func(ty) => match features.value_types_at(ty.params, offset) {
                Err(e) => (self, types, Err(e)),
                Ok(_) => match features.value_types_at(ty.returns, offset) {
                    Err(e) => (self, types, Err(e)),
                    Ok(_) => if ty.returns.len() > 1 && !features.multi_value {
                        (
                            self,
                            types,
                            Err(
                                error_at(
                                    "func type returns multiple values but the multi-value feature is not enabled",
                                    offset,
                                ),
                            ),
                        )
                    } else {
                        (
                            ModuleView {
                                types: self.types.push(types.len() as usize),
                                ..self
                            },
                            types.push(DefinedTypeView::Func(ty)),
                            Ok(()),
                        )
                    },
                },
            },
        }
    }

    /// The type of a tag: a function type without results.
    pub open spec fn tag_type_at(
        self,
        types: Seq<DefinedTypeView>,
        ty: TagType,
        features: WasmFeatures,
        offset: int,
    ) -> Result<()> {
        if !features.exceptions {
            Err(error_at("exceptions proposal not enabled", offset))
        } else {
            match self.func_type_at(types, ty.func_type_idx, offset) {
                Err(e) => Err(e),
                Ok(func) => if func.returns.len() != 0 {
                    Err(error_at("invalid exception type: non-empty tag result type", offset))
                } else {
                    Ok(())
                },
            }
        }
    }

    /// The type of an import.
    pub open spec fn type_ref_at(
        self,
        types: Seq<DefinedTypeView>,
        ty: TypeRef,
        features: WasmFeatures,
        offset: int,
    ) -> Result<EntityType> {
        match ty {
            TypeRef::Func(index) => match self.func_type_at(types, index, offset) {
                Err(e) => Err(e),
                Ok(_) => Ok(EntityType::Func(self.types[index as int])),
            },
            TypeRef::Table(ty) => match table_type_at(ty, features, offset) {
                Err(e) => Err(e),
                Ok(_) => Ok(EntityType::Table(ty)),
            },
            TypeRef::Memory(ty) => match memory_type_at(ty, features, offset) {
                Err(e) => Err(e),
                Ok(_) => Ok(EntityType::Memory(ty)),
            },
            TypeRef::Global(ty) => match features.value_type_at(ty.content_type, offset) {
                Err(e) => Err(e),
                Ok(_) => Ok(EntityType::Global(ty)),
            },
            TypeRef::Tag(ty) => match self.tag_type_at(types, ty, features, offset) {
                Err(e) => Err(e),
                Ok(_) => Ok(EntityType::Tag(self.types[ty.func_type_idx as int])),
            },
        }
    }

    /// Puts what an import brings behind the others of its kind.
    pub open spec fn imported(self, ty: TypeRef) -> ModuleView {
        match ty {
            TypeRef::Func(index) => ModuleView {
                functions: self.functions.push(index),
                num_imported_functions: self.num_imported_functions + 1,
                ..self
            },
            TypeRef::Table(ty) => ModuleView { tables: self.tables.push(ty), ..self },
            TypeRef::Memory(ty) => ModuleView { memories: self.memories.push(ty), ..self },
            TypeRef::Global(ty) => ModuleView {
                globals: self.globals.push(ty),
                num_imported_globals: self.num_imported_globals + 1,
                ..self
            },
            TypeRef::Tag(ty) => ModuleView {
                tags: self.tags.push(self.types[ty.func_type_idx as int]),
                ..self
            },
        }
    }

    /// The error for more of what an import brings than there can be.
    pub open spec fn import_limit(self, ty: TypeRef, features: WasmFeatures, offset: int) -> Result<
        (),
    > {
        match ty {
            TypeRef::Func(_) => max_check(
                self.functions.len() as int,
                0,
                MAX_WASM_FUNCTIONS,
                "functions",
                offset,
            ),
            TypeRef::Table(_) => max_check(
                self.tables.len() as int,
                0,
                table_limit(features),
                "tables",
                offset,
            ),
            TypeRef::Memory(_) => max_check(
                self.memories.len() as int,
                0,
                memory_limit(features),
                "memories",
                offset,
            ),
            TypeRef::Global(_) => max_check(
                self.globals.len() as int,
                0,
                MAX_WASM_GLOBALS,
                "globals",
                offset,
            ),
            TypeRef::Tag(_) => max_check(self.tags.len() as int, 0, MAX_WASM_TAGS, "tags", offset),
        }
    }

    /// Adds an import.
    pub open spec fn add_import(
        self,
        types: Seq<DefinedTypeView>,
        import: ImportView,
        features: WasmFeatures,
        offset: int,
    ) -> (ModuleView, Result<()>) {
        match self.type_ref_at(types, import.ty, features, offset) {
            Err(e) => (self, Err(e)),
            Ok(ty) => if !features.mutable_global && ty is Global && ty->Global_0.mutable {
                (self, Err(error_at("mutable global support is not enabled", offset)))
            } else {
                match self.imported(import.ty).import_limit(import.ty, features, offset) {
                    Err(e) => (self.imported(import.ty), Err(e)),
                    Ok(_) => (
                        ModuleView {
                            imports: self.imports.push(
                                ModuleImportView { module: import.module, name: import.name, ty },
                            ),
                            ..self.imported(import.ty)
                        },
                        Ok(()),
                    ),
                }
            },
        }
    }

    /// Adds a function of the type with an index.
    pub open spec fn add_function(
        self,
        types: Seq<DefinedTypeView>,
        type_index: u32,
        offset: int,
    ) -> (ModuleView, Result<()>) {
        match self.func_type_at(types, type_index, offset) {
            Err(e) => (self, Err(e)),
            Ok(_) => (
                ModuleView { functions: self.functions.push(type_index), ..self },
                Ok(()),
            ),
        }
    }

    /// Adds a table.
    pub open spec fn add_table(self, ty: TableType, features: WasmFeatures, offset: int) -> (
        ModuleView,
        Result<()>,
    ) {
        match table_type_at(ty, features, offset) {
            Err(e) => (self, Err(e)),
            Ok(_) => (ModuleView { tables: self.tables.push(ty), ..self }, Ok(())),
        }
    }

    /// Adds a memory.
    pub open spec fn add_memory(self, ty: MemoryType, features: WasmFeatures, offset: int) -> (
        ModuleView,
        Result<()>,
    ) {
        match memory_type_at(ty, features, offset) {
            Err(e) => (self, Err(e)),
            Ok(_) => (ModuleView { memories: self.memories.push(ty), ..self }, Ok(())),
        }
    }

    /// Adds a tag.
    pub open spec fn add_tag(
        self,
        types: Seq<DefinedTypeView>,
        ty: TagType,
        features: WasmFeatures,
        offset: int,
    ) -> (ModuleView, Result<()>) {
        match self.tag_type_at(types, ty, features, offset) {
            Err(e) => (self, Err(e)),
            Ok(_) => (
                ModuleView {
                    tags: self.tags.push(self.types[ty.func_type_idx as int]),
                    ..self
                },
                Ok(()),
            ),
        }
    }

    /// The type of what is exported.
    pub open spec fn export_type(self, export: ExportView, offset: int) -> Result<EntityType> {
        match export.kind {
            ExternalKind::Func => if export.index < self.functions.len() {
                Ok(
                    EntityType::Func(
                        self.types[self.functions[export.index as int] as int],
                    ),
                )
            } else {
                Err(exported_unknown(export.kind, export.index, offset))
            },
            ExternalKind::Table => if export.index < self.tables.len() {
                Ok(EntityType::Table(self.tables[export.index as int]))
            } else {
                Err(exported_unknown(export.kind, export.index, offset))
            },
            ExternalKind::Memory => if export.index < self.memories.len() {
                Ok(EntityType::Memory(self.memories[export.index as int]))
            } else {
                Err(exported_unknown(export.kind, export.index, offset))
            },
            ExternalKind::Global => if export.index < self.globals.len() {
                Ok(EntityType::Global(self.globals[export.index as int]))
            } else {
                Err(exported_unknown(export.kind, export.index, offset))
            },
            ExternalKind::Tag => if export.index < self.tags.len() {
                Ok(EntityType::Tag(self.tags[export.index as int]))
            } else {
                Err(exported_unknown(export.kind, export.index, offset))
            },
        }
    }

    /// The type of what is exported. Code can make references to an exported
    /// function.
    pub open spec fn export_to_entity_type(self, export: ExportView, offset: int) -> (
        ModuleView,
        Result<EntityType>,
    ) {
        match self.export_type(export, offset) {
            Err(e) => (self, Err(e)),
            Ok(ty) => if export.kind == ExternalKind::Func {
                (
                    ModuleView {
                        function_references: self.function_references.insert(export.index),
                        ..self
                    },
                    Ok(ty),
                )
            } else {
                (self, Ok(ty))
            },
        }
    }

    /// Adds an export.
    pub open spec fn add_export(
        self,
        name: Seq<char>,
        ty: EntityType,
        features: WasmFeatures,
        offset: int,
    ) -> (ModuleView, Result<()>) {
        if !features.mutable_global && ty is Global && ty->Global_0.mutable {
            (self, Err(error_at("mutable global support is not enabled", offset)))
        } else if has_name(self.exports, name) {
            (self, Err(error_at("duplicate export name already defined", offset)))
        } else {
            (ModuleView { exports: self.exports.push((name, ty)), ..self }, Ok(()))
        }
    }

    /// Adds an export as it is written.
    pub open spec fn export(self, export: ExportView, features: WasmFeatures, offset: int) -> (
        ModuleView,
        Result<()>,
    ) {
        match self.export_to_entity_type(export, offset) {
            (m, Err(e)) => (m, Err(e)),
            (m, Ok(ty)) => m.add_export(export.name, ty, features, offset),
        }
    }

    /// What an operator of a constant expression does.
    pub open spec fn const_op(
        self,
        state: ConstState,
        op: OperatorView,
        features: WasmFeatures,
        offset: int,
    ) -> Result<ConstState> {
        match op {
            OperatorView::Op(Op::I32Const(_)) => Ok(state.push(Type::I32)),
            OperatorView::Op(Op::I64Const(_)) => Ok(state.push(Type::I64)),
            OperatorView::Op(Op::F32Const) => match floats_at(features, offset) {
                Err(e) => Err(e),
                Ok(_) => Ok(state.push(Type::F32)),
            },
            OperatorView::Op(Op::F64Const) => match floats_at(features, offset) {
                Err(e) => Err(e),
                Ok(_) => Ok(state.push(Type::F64)),
            },
            OperatorView::Op(Op::V128Const) => match features.value_type_at(Type::V128, offset) {
                Err(e) => Err(e),
                Ok(_) => Ok(state.push(Type::V128)),
            },
            OperatorView::Op(Op::RefNull(ty)) => if !features.reference_types {
                Err(error_at("reference types support is not enabled", offset))
            } else if !ty.reference() {
                Err(error_at("invalid non-reference type in ref.null", offset))
            } else {
                Ok(state.push(ty))
            },
            OperatorView::Op(Op::RefFunc(func)) => if !features.reference_types {
                Err(error_at("reference types support is not enabled", offset))
            } else if func >= self.functions.len() {
                Err(
                    number_error_at(
                        "unknown function ",
                        func as int,
                        ": func index out of bounds",
                        offset,
                    ),
                )
            } else {
                Ok(
                    ConstState {
                        stack: state.stack.push(Type::FuncRef),
                        refs: state.refs.push(func),
                    },
                )
            },
            OperatorView::Op(Op::GlobalGet(index)) => match self.global_at(index, offset) {
                Err(e) => Err(e),
                Ok(global) => if index >= self.num_imported_globals {
                    Err(
                        error_at(
                            "constant expression required: global.get of locally defined global",
                            offset,
                        ),
                    )
                } else if global.mutable {
                    Err(
                        error_at(
                            "constant expression required: global.get of mutable global",
                            offset,
                        ),
                    )
                } else {
                    Ok(state.push(global.content_type))
                },
            },
            OperatorView::Op(Op::Simple(simple)) => if simple.extended_const
                && features.extended_const {
                match simple.params {
                    Params::Two(first, second) => match pop_const(state.stack, second, offset) {
                        Err(e) => Err(e),
                        Ok(stack) => match pop_const(stack, first, offset) {
                            Err(e) => Err(e),
                            Ok(stack) => Ok(
                                ConstState { stack: stack.push(simple.result), ..state },
                            ),
                        },
                    },
                    _ => Err(not_constant(offset)),
                }
            } else {
                Err(not_constant(offset))
            },
            _ => Err(not_constant(offset)),
        }
    }

    /// The functions that the constant expression from a place on makes
    /// references to, if it gives one value of the expected type.
    pub open spec fn const_expr(
        self,
        state: ConstState,
        c: Cursor,
        expected: Type,
        features: WasmFeatures,
    ) -> Result<Seq<u32>>
        decreases c.left(),
        when c.wf()
    {
        match parse_operator(c, false) {
            (d, Err(e)) => Err(e),
            (d, Ok(op)) => if op == OperatorView::Op(Op::End) {
                match pop_const(state.stack, expected, c.offset()) {
                    Err(e) => Err(e),
                    Ok(stack) => if stack.len() != 0 {
                        Err(
                            error_at(
                                "type mismatch: values remaining on stack at end of block",
                                c.offset(),
                            ),
                        )
                    } else {
                        Ok(state.refs)
                    },
                }
            } else {
                match self.const_op(state, op, features, c.offset()) {
                    Err(e) => Err(e),
                    Ok(state) => if d.follows(c) && d.pos > c.pos {
                        self.const_expr(state, d, expected, features)
                    } else {
                        Err(d.end_of_file())
                    },
                }
            },
        }
    }

    /// Checks that a constant expression gives a value of a type.
    pub open spec fn init_expr(self, c: Cursor, expected: Type, features: WasmFeatures) -> Result<
        Seq<u32>,
    > {
        self.const_expr(
            ConstState { stack: Seq::empty(), refs: Seq::empty() },
            c,
            expected,
            features,
        )
    }

    /// The module with references to more functions.
    pub open spec fn refer(self, refs: Seq<u32>) -> ModuleView {
        ModuleView {
            function_references: self.function_references.union(refs.to_set()),
            ..self
        }
    }

    /// Adds a global.
    pub open spec fn add_global(self, global: GlobalView, features: WasmFeatures, offset: int) -> (
        ModuleView,
        Result<()>,
    ) {
        match features.value_type_at(global.ty.content_type, offset) {
            Err(e) => (self, Err(e)),
            Ok(_) => match self.init_expr(global.init_expr, global.ty.content_type, features) {
                Err(e) => (self, Err(e)),
                Ok(refs) => (
                    ModuleView { globals: self.globals.push(global.ty), ..self.refer(refs) },
                    Ok(()),
                ),
            },
        }
    }

    /// Checks a data segment.
    pub open spec fn data_segment(self, data: DataView, features: WasmFeatures, offset: int) -> Result<
        (),
    > {
        match data.kind {
            DataKindView::Passive => Ok(()),
            DataKindView::Active { memory_index, init_expr } => match self.memory_at(
                memory_index,
                offset,
            ) {
                Err(e) => Err(e),
                Ok(memory) => match self.init_expr(init_expr, memory.address_type(), features) {
                    Err(e) => Err(e),
                    Ok(_) => Ok(()),
                },
            },
        }
    }

    /// Adds the functions of an element segment, from the `i`th on.
    pub open spec fn element_functions(
        self,
        list: Seq<PlacedView<u32>>,
        i: int,
        ty: Type,
    ) -> (ModuleView, Result<()>)
        decreases list.len() - i,
    {
        if i < 0 || i >= list.len() {
            (self, Ok(()))
        } else if ty != Type::FuncRef {
            (self, Err(error_at("type mismatch: segment does not have funcref type", list[i].offset)))
        } else if list[i].item >= self.functions.len() {
            (
                self,
                Err(
                    number_error_at(
                        "unknown function ",
                        list[i].item as int,
                        ": func index out of bounds",
                        list[i].offset,
                    ),
                ),
            )
        } else {
            (ModuleView {
                function_references: self.function_references.insert(list[i].item),
                ..self
            }).element_functions(list, i + 1, ty)
        }
    }

    /// Adds the expressions of an element segment, from the `i`th on.
    pub open spec fn element_expressions(
        self,
        list: Seq<PlacedView<Cursor>>,
        i: int,
        ty: Type,
        features: WasmFeatures,
    ) -> (ModuleView, Result<()>)
        decreases list.len() - i,
    {
        if i < 0 || i >= list.len() {
            (self, Ok(()))
        } else {
            match self.init_expr(list[i].item, ty, features) {
                Err(e) => (self, Err(e)),
                Ok(refs) => self.refer(refs).element_expressions(list, i + 1, ty, features),
            }
        }
    }

    /// Checks where the elements of a segment go, and gives the functions that
    /// the place in the table refers to.
    pub open spec fn element_kind(
        self,
        element: ElementView,
        features: WasmFeatures,
        offset: int,
    ) -> Result<Seq<u32>> {
        match element.kind {
            ElementKindView::Active { table_index, init_expr } => match self.table_at(
                table_index,
                offset,
            ) {
                Err(e) => Err(e),
                Ok(table) => if element.ty != table.element_type {
                    Err(error_at("invalid element type for table type", offset))
                } else {
                    self.init_expr(init_expr, Type::I32, features)
                },
            },
            _ => if !features.bulk_memory {
                Err(error_at("bulk memory must be enabled", offset))
            } else {
                Ok(Seq::empty())
            },
        }
    }

    /// Adds the elements of a segment.
    pub open spec fn element_items(
        self,
        element: ElementView,
        features: WasmFeatures,
        offset: int,
    ) -> (ModuleView, Result<()>) {
        match element.items {
            ElementItemsView::Functions(list) => if list.len() > MAX_WASM_TABLE_ENTRIES {
                (self, Err(error_at("number of elements is out of bounds", offset)))
            } else {
                self.element_functions(list, 0, element.ty)
            },
            ElementItemsView::Expressions(list) => if list.len() > MAX_WASM_TABLE_ENTRIES {
                (self, Err(error_at("number of elements is out of bounds", offset)))
            } else {
                self.element_expressions(list, 0, element.ty, features)
            },
        }
    }

    /// Adds an element segment.
    pub open spec fn add_element_segment(
        self,
        element: ElementView,
        features: WasmFeatures,
        offset: int,
    ) -> (ModuleView, Result<()>) {
        // the `funcref` value type has always been there
        if element.ty != Type::FuncRef && features.value_type_at(element.ty, offset) is Err {
            (self, Err(features.value_type_at(element.ty, offset)->Err_0))
        } else if !element.ty.reference() {
            (self, Err(error_at("invalid reference type", offset)))
        } else {
            match self.element_kind(element, features, offset) {
                Err(e) => (self, Err(e)),
                Ok(refs) => match self.refer(refs).element_items(element, features, offset) {
                    (m, Err(e)) => (m, Err(e)),
                    (m, Ok(_)) => (
                        ModuleView { element_types: m.element_types.push(element.ty), ..m },
                        Ok(()),
                    ),
                },
            }
        }
    }
}

impl ModuleView {
    /// `later` is the same module but for the functions that code can make
    /// references to and the element segments.
    pub open spec fn same_definitions(self, later: ModuleView) -> bool {
        later == (ModuleView {
            function_references: later.function_references,
            element_types: later.element_types,
            ..self
        })
    }

    /// What a module says of types stays true when there are more types.
    pub proof fn lemma_longer(self, start: Seq<DefinedTypeView>, list: Seq<DefinedTypeView>)
        requires
            self.wf(start),
            starts_with(list, start),
        ensures
            self.wf(list),
    {
    }

    /// An element segment defines nothing else.
    pub proof fn lemma_element_keeps(self, element: ElementView, features: WasmFeatures, offset: int)
        ensures
            self.same_definitions(self.add_element_segment(element, features, offset).0),
    {
        if let Ok(refs) = self.element_kind(element, features, offset) {
            let m = self.refer(refs);
            match element.items {
                ElementItemsView::Functions(list) => {
                    m.lemma_functions_keep(list, 0, element.ty);
                },
                ElementItemsView::Expressions(list) => {
                    m.lemma_expressions_keep(list, 0, element.ty, features);
                },
            }
        }
    }

    /// The elements of a segment add no segment.
    pub proof fn lemma_keeps_types(self, element: ElementView, features: WasmFeatures, offset: int)
        ensures
            self.element_items(element, features, offset).0.element_types == self.element_types,
    {
        match element.items {
            ElementItemsView::Functions(list) => {
                self.lemma_functions_keep(list, 0, element.ty);
            },
            ElementItemsView::Expressions(list) => {
                self.lemma_expressions_keep(list, 0, element.ty, features);
            },
        }
    }

    proof fn lemma_functions_keep(self, list: Seq<PlacedView<u32>>, i: int, ty: Type)
        ensures
            self.same_definitions(self.element_functions(list, i, ty).0),
            self.element_functions(list, i, ty).0.element_types == self.element_types,
        decreases list.len() - i,
    {
        if 0 <= i < list.len() {
            let m = ModuleView {
                function_references: self.function_references.insert(list[i].item),
                ..self
            };
            m.lemma_functions_keep(list, i + 1, ty);
        }
    }

    proof fn lemma_expressions_keep(
        self,
        list: Seq<PlacedView<Cursor>>,
        i: int,
        ty: Type,
        features: WasmFeatures,
    )
        ensures
            self.same_definitions(self.element_expressions(list, i, ty, features).0),
            self.element_expressions(list, i, ty, features).0.element_types == self.element_types,
        decreases list.len() - i,
    {
        if 0 <= i < list.len() {
            if let Ok(refs) = self.init_expr(list[i].item, ty, features) {
                self.refer(refs).lemma_expressions_keep(list, i + 1, ty, features);
            }
        }
    }
}

/// The error for an operator that a constant expression cannot have.
pub open spec fn not_constant(offset: int) -> BinaryReaderError {
    error_at("constant expression required: non-constant operator", offset)
}

fn not_constant_error(offset: usize) -> (error: BinaryReaderError)
    ensures
        error == not_constant(offset as int),
{
    BinaryReaderError::new("constant expression required: non-constant operator", offset)
}

impl Module {
    /// A module of which nothing is known yet.
    pub fn new() -> (module: Module)
        ensures
            module@ == ModuleView::empty(),
    {
        let module = Module {
            snapshot: None,
            types: Vec::new(),
            tables: Vec::new(),
            memories: Vec::new(),
            globals: Vec::new(),
            element_types: Vec::new(),
            data_count: None,
            functions: Vec::new(),
            tags: Vec::new(),
            function_references: HashSet::new(),
            imports: Vec::new(),
            exports: NameMap::new(),
            num_imported_functions: 0,
            num_imported_globals: 0,
        };
        assert(module@.imports =~= Seq::<ModuleImportView>::empty());
        module
    }

    /// The function type with an index.
    pub fn func_type_at<'t>(&self, type_index: u32, types: &'t TypeList, offset: usize) -> (result:
        Result<&'t FuncType>)
        requires
            self@.wf(types@),
        ensures
            viewed(result) == self@.func_type_at(types@, type_index, offset as int),
    {
        if type_index as usize >= self.types.len() {
            return Err(
                BinaryReaderError::with_number(
                    "unknown type ",
                    type_index as u64,
                    ": type index out of bounds",
                    offset,
                ),
            );
        }
        let place = self.types[type_index as usize];
        assert(is_func_type(types@, place));
        Ok(types.func(place))
    }

    /// The type of a function.
    pub fn get_func_type<'t>(&self, func: u32, types: &'t TypeList, offset: usize) -> (result:
        Result<&'t FuncType>)
        requires
            self@.wf(types@),
        ensures
            viewed(result) == self@.get_func_type(types@, func, offset as int),
    {
        if func as usize >= self.functions.len() {
            return Err(
                BinaryReaderError::with_number(
                    "unknown function ",
                    func as u64,
                    ": func index out of bounds",
                    offset,
                ),
            );
        }
        self.func_type_at(self.functions[func as usize], types, offset)
    }

    /// The global with an index.
    pub fn global_at(&self, index: u32, offset: usize) -> (result: Result<GlobalType>)
        ensures
            result == self@.global_at(index, offset as int),
    {
        if (index as usize) < self.globals.len() {
            Ok(self.globals[index as usize])
        } else {
            Err(
                BinaryReaderError::with_number(
                    "unknown global ",
                    index as u64,
                    ": global index out of bounds",
                    offset,
                ),
            )
        }
    }

    /// The table with an index.
    pub fn table_at(&self, index: u32, offset: usize) -> (result: Result<TableType>)
        ensures
            result == self@.table_at(index, offset as int),
    {
        if (index as usize) < self.tables.len() {
            Ok(self.tables[index as usize])
        } else {
            Err(
                BinaryReaderError::with_number(
                    "unknown table ",
                    index as u64,
                    ": table index out of bounds",
                    offset,
                ),
            )
        }
    }

    /// The memory with an index.
    pub fn memory_at(&self, index: u32, offset: usize) -> (result: Result<MemoryType>)
        ensures
            result == self@.memory_at(index, offset as int),
    {
        if (index as usize) < self.memories.len() {
            Ok(self.memories[index as usize])
        } else {
            Err(
                BinaryReaderError::with_number(
                    "unknown memory ",
                    index as u64,
                    ": memory index out of bounds",
                    offset,
                ),
            )
        }
    }

    /// How many tables the module can have.
    pub fn max_tables(&self, features: &WasmFeatures) -> (max: usize)
        ensures
            max == table_limit(*features),
    {
        if features.reference_types {
            MAX_WASM_TABLES
        } else {
            1
        }
    }

    /// How many memories the module can have.
    pub fn max_memories(&self, features: &WasmFeatures) -> (max: usize)
        ensures
            max == memory_limit(*features),
    {
        if features.multi_memory {
            MAX_WASM_MEMORIES
        } else {
            1
        }
    }

    /// Adds a type to the module, and to the list of all types.
    pub fn add_type(
        &mut self,
        def: &TypeDef,
        features: &WasmFeatures,
        types: &mut TypeList,
        offset: usize,
    ) -> (result: Result<()>)
        requires
            old(self)@.wf(old(types)@),
        ensures
            final(self)@.wf(final(types)@),
            (final(self)@, final(types)@, result) == old(self)@.add_type(
                old(types)@,
                def@,
                *features,
                offset as int,
            ),
    {
        match def {
            TypeDef::Func(ty) => {
                features.check_value_types_at(&ty.params, offset)?;
                features.check_value_types_at(&ty.returns, offset)?;
                if ty.returns.len() > 1 && !features.multi_value {
                    return Err(
                        BinaryReaderError::new(
                            "func type returns multiple values but the multi-value feature is not enabled",
                            offset,
                        ),
                    );
                }
                let copy = FuncType {
                    params: copy_types(&ty.params),
                    returns: copy_types(&ty.returns),
                };
                let place = types.push(DefinedType::Func(copy));
                self.types.push(place);
                Ok(())
            },
        }
    }

    /// Checks the type of a tag.
    pub fn check_tag_type(
        &self,
        ty: &TagType,
        features: &WasmFeatures,
        types: &TypeList,
        offset: usize,
    ) -> (result: Result<()>)
        requires
            self@.wf(types@),
        ensures
            result == self@.tag_type_at(types@, *ty, *features, offset as int),
    {
        if !features.exceptions {
            return Err(BinaryReaderError::new("exceptions proposal not enabled", offset));
        }
        let func = self.func_type_at(ty.func_type_idx, types, offset)?;
        if func.returns.len() != 0 {
            return Err(
                BinaryReaderError::new("invalid exception type: non-empty tag result type", offset),
            );
        }
        Ok(())
    }

    /// Checks the type of an import.
    pub fn check_type_ref(
        &self,
        ty: &TypeRef,
        features: &WasmFeatures,
        types: &TypeList,
        offset: usize,
    ) -> (result: Result<EntityType>)
        requires
            self@.wf(types@),
        ensures
            result == self@.type_ref_at(types@, *ty, *features, offset as int),
    {
        match ty {
            TypeRef::Func(index) => {
                self.func_type_at(*index, types, offset)?;
                Ok(EntityType::Func(self.types[*index as usize]))
            },
            TypeRef::Table(ty) => {
                check_table_type(ty, features, offset)?;
                Ok(EntityType::Table(*ty))
            },
            TypeRef::Memory(ty) => {
                check_memory_type(ty, features, offset)?;
                Ok(EntityType::Memory(*ty))
            },
            TypeRef::Global(ty) => {
                features.check_value_type_at(ty.content_type, offset)?;
                Ok(EntityType::Global(*ty))
            },
            TypeRef::Tag(ty) => {
                self.check_tag_type(ty, features, types, offset)?;
                Ok(EntityType::Tag(self.types[ty.func_type_idx as usize]))
            },
        }
    }

    /// Adds an import.
    pub fn add_import(
        &mut self,
        import: Import<'_>,
        features: &WasmFeatures,
        types: &TypeList,
        offset: usize,
    ) -> (result: Result<()>)
        requires
            old(self)@.wf(types@),
        ensures
            final(self)@.wf(types@),
            (final(self)@, result) == old(self)@.add_import(
                types@,
                import@,
                *features,
                offset as int,
            ),
    {
        let ty = self.check_type_ref(&import.ty, features, types, offset)?;
        if !features.mutable_global {
            if let EntityType::Global(global) = ty {
                if global.mutable {
                    return Err(
                        BinaryReaderError::new("mutable global support is not enabled", offset),
                    );
                }
            }
        }
        let (len, max, desc): (usize, usize, &'static str) = match import.ty {
            TypeRef::Func(index) => {
                self.functions.push(index);
                let len = self.functions.len();
                self.num_imported_functions = self.num_imported_functions + 1;
                (len, MAX_WASM_FUNCTIONS, "functions")
            },
            TypeRef::Table(ty) => {
                self.tables.push(ty);
                (self.tables.len(), self.max_tables(features), "tables")
            },
            TypeRef::Memory(ty) => {
                self.memories.push(ty);
                (self.memories.len(), self.max_memories(features), "memories")
            },
            TypeRef::Global(ty) => {
                self.globals.push(ty);
                let len = self.globals.len();
                self.num_imported_globals = self.num_imported_globals + 1;
                (len, MAX_WASM_GLOBALS, "globals")
            },
            TypeRef::Tag(ty) => {
                let place = self.types[ty.func_type_idx as usize];
                self.tags.push(place);
                (self.tags.len(), MAX_WASM_TAGS, "tags")
            },
        };
        assert(self@ == old(self)@.imported(import.ty));
        check_max(len, 0, max, desc, offset)?;
        let ghost before = self@.imports;
        self.imports.push(
            ModuleImport { module: import.module.to_owned(), name: import.name.to_owned(), ty },
        );
        assert(self@.imports =~= before.push(
            ModuleImportView { module: import.module@, name: import.name@, ty },
        ));
        Ok(())
    }

    /// Adds a function of the type with an index.
    pub fn add_function(&mut self, type_index: u32, types: &TypeList, offset: usize) -> (result:
        Result<()>)
        requires
            old(self)@.wf(types@),
        ensures
            final(self)@.wf(types@),
            (final(self)@, result) == old(self)@.add_function(types@, type_index, offset as int),
    {
        self.func_type_at(type_index, types, offset)?;
        self.functions.push(type_index);
        assert(self@ == (ModuleView {
            functions: old(self)@.functions.push(type_index),
            ..old(self)@
        }));
        Ok(())
    }

    /// Adds a table.
    pub fn add_table(&mut self, ty: TableType, features: &WasmFeatures, offset: usize) -> (result:
        Result<()>)
        ensures
            (final(self)@, result) == old(self)@.add_table(ty, *features, offset as int),
    {
        check_table_type(&ty, features, offset)?;
        self.tables.push(ty);
        Ok(())
    }

    /// Adds a memory.
    pub fn add_memory(&mut self, ty: MemoryType, features: &WasmFeatures, offset: usize) -> (result:
        Result<()>)
        ensures
            (final(self)@, result) == old(self)@.add_memory(ty, *features, offset as int),
    {
        check_memory_type(&ty, features, offset)?;
        self.memories.push(ty);
        Ok(())
    }

    /// Adds a tag.
    pub fn add_tag(
        &mut self,
        ty: TagType,
        features: &WasmFeatures,
        types: &TypeList,
        offset: usize,
    ) -> (result: Result<()>)
        requires
            old(self)@.wf(types@),
        ensures
            final(self)@.wf(types@),
            (final(self)@, result) == old(self)@.add_tag(types@, ty, *features, offset as int),
    {
        self.check_tag_type(&ty, features, types, offset)?;
        let place = self.types[ty.func_type_idx as usize];
        self.tags.push(place);
        assert(self@ == (ModuleView { tags: old(self)@.tags.push(place), ..old(self)@ }));
        Ok(())
    }

    /// The type of what is exported.
    pub fn export_to_entity_type(
        &mut self,
        export: &Export<'_>,
        offset: usize,
    ) -> (result: Result<EntityType>)
        requires
            forall|i: int|
                0 <= i < old(self)@.functions.len() ==> #[trigger] old(self)@.functions[i]
                    < old(self)@.types.len(),
        ensures
            (final(self)@, result) == old(self)@.export_to_entity_type(export@, offset as int),
    {
        let index = export.index as usize;
        match export.kind {
            ExternalKind::Func => {
                if index < self.functions.len() {
                    self.function_references.insert(export.index);
                    assert(self@ == (ModuleView {
                        function_references: old(self)@.function_references.insert(export.index),
                        ..old(self)@
                    }));
                    let type_index = self.functions[index] as usize;
                    return Ok(EntityType::Func(self.types[type_index]));
                }
            },
            ExternalKind::Table => {
                if index < self.tables.len() {
                    return Ok(EntityType::Table(self.tables[index]));
                }
            },
            ExternalKind::Memory => {
                if index < self.memories.len() {
                    return Ok(EntityType::Memory(self.memories[index]));
                }
            },
            ExternalKind::Global => {
                if index < self.globals.len() {
                    return Ok(EntityType::Global(self.globals[index]));
                }
            },
            ExternalKind::Tag => {
                if index < self.tags.len() {
                    return Ok(EntityType::Tag(self.tags[index]));
                }
            },
        }
        Err(exported_unknown_error(export.kind, export.index, offset))
    }

    /// Adds an export.
    pub fn add_export(&mut self, name: &str, ty: EntityType, features: &WasmFeatures, offset: usize)
        -> (result: Result<()>)
        ensures
            (final(self)@, result) == old(self)@.add_export(name@, ty, *features, offset as int),
    {
        if !features.mutable_global {
            if let EntityType::Global(global) = ty {
                if global.mutable {
                    return Err(
                        BinaryReaderError::new("mutable global support is not enabled", offset),
                    );
                }
            }
        }
        if self.exports.insert(name, ty) {
            Ok(())
        } else {
            Err(BinaryReaderError::new("duplicate export name already defined", offset))
        }
    }

    fn check_const_op(
        &self,
        stack: &mut Vec<Type>,
        refs: &mut Vec<u32>,
        op: &Operator,
        features: &WasmFeatures,
        offset: usize,
    ) -> (result: Result<()>)
        ensures
            match self@.const_op(
                ConstState { stack: old(stack)@, refs: old(refs)@ },
                op@,
                *features,
                offset as int,
            ) {
                Ok(state) => result is Ok && final(stack)@ == state.stack && final(refs)@
                    == state.refs,
                Err(e) => result == Err::<(), _>(e),
            },
    {
        let op = match op {
            Operator::Op(op) => op,
            Operator::BrTable { .. } => {
                return Err(not_constant_error(offset));
            },
        };
        match op {
            Op::I32Const(_) => stack.push(Type::I32),
            Op::I64Const(_) => stack.push(Type::I64),
            Op::F32Const => {
                check_floats(features, offset)?;
                stack.push(Type::F32);
            },
            Op::F64Const => {
                check_floats(features, offset)?;
                stack.push(Type::F64);
            },
            Op::V128Const => {
                features.check_value_type_at(Type::V128, offset)?;
                stack.push(Type::V128);
            },
            Op::RefNull(ty) => {
                if !features.reference_types {
                    return Err(
                        BinaryReaderError::new("reference types support is not enabled", offset),
                    );
                }
                if !ty.is_reference() {
                    return Err(
                        BinaryReaderError::new("invalid non-reference type in ref.null", offset),
                    );
                }
                stack.push(*ty);
            },
            Op::RefFunc(func) => {
                if !features.reference_types {
                    return Err(
                        BinaryReaderError::new("reference types support is not enabled", offset),
                    );
                }
                if *func as usize >= self.functions.len() {
                    return Err(
                        BinaryReaderError::with_number(
                            "unknown function ",
                            *func as u64,
                            ": func index out of bounds",
                            offset,
                        ),
                    );
                }
                stack.push(Type::FuncRef);
                refs.push(*func);
            },
            Op::GlobalGet(index) => {
                let global = self.global_at(*index, offset)?;
                if *index as usize >= self.num_imported_globals {
                    return Err(
                        BinaryReaderError::new(
                            "constant expression required: global.get of locally defined global",
                            offset,
                        ),
                    );
                }
                if global.mutable {
                    return Err(
                        BinaryReaderError::new(
                            "constant expression required: global.get of mutable global",
                            offset,
                        ),
                    );
                }
                stack.push(global.content_type);
            },
            Op::Simple(simple) => {
                if !simple.extended_const || !features.extended_const {
                    return Err(not_constant_error(offset));
                }
                match simple.params {
                    Params::Two(first, second) => {
                        pop_const_value(stack, second, offset)?;
                        pop_const_value(stack, first, offset)?;
                        stack.push(simple.result);
                    },
                    _ => {
                        return Err(not_constant_error(offset));
                    },
                }
            },
            _ => {
                return Err(not_constant_error(offset));
            },
        }
        Ok(())
    }

    /// Checks that a constant expression gives a value of a type, and says which
    /// functions it makes references to.
    pub fn check_init_expr(&self, expr: &ConstExpr<'_>, expected: Type, features: &WasmFeatures) -> (
    result: Result<Vec<u32>>)
        requires
            expr@.wf(),
        ensures
            viewed(result) == self@.init_expr(expr@, expected, *features),
    {
        let mut reader = expr.get_binary_reader();
        let mut stack: Vec<Type> = Vec::new();
        let mut refs: Vec<u32> = Vec::new();
        loop
            invariant
                reader.wf(),
                self@.init_expr(expr@, expected, *features) == self@.const_expr(
                    ConstState { stack: stack@, refs: refs@ },
                    reader@,
                    expected,
                    *features,
                ),
            decreases reader@.left(),
        {
            let offset = reader.original_position();
            let op = read_operator(&mut reader, false)?;
            if let Operator::Op(Op::End) = op {
                pop_const_value(&mut stack, expected, offset)?;
                if stack.len() != 0 {
                    return Err(
                        BinaryReaderError::new(
                            "type mismatch: values remaining on stack at end of block",
                            offset,
                        ),
                    );
                }
                return Ok(refs);
            }
            self.check_const_op(&mut stack, &mut refs, &op, features, offset)?;
        }
    }

    /// Notes that code can make references to functions.
    fn refer(&mut self, refs: &Vec<u32>)
        ensures
            final(self)@ == old(self)@.refer(refs@),
    {
        let mut i: usize = 0;
        let ghost before = self@;
        assert(self@ =~= before.refer(refs@.take(0)));
        while i < refs.len()
            invariant
                i <= refs@.len(),
                self@ == before.refer(refs@.take(i as int)),
            decreases refs@.len() - i,
        {
            self.function_references.insert(refs[i]);
            assert(refs@.take(i + 1) =~= refs@.take(i as int).push(refs@[i as int]));
            assert(refs@.take(i + 1).to_set() =~= refs@.take(i as int).to_set().insert(
                refs@[i as int],
            )) by {
                let s = refs@.take(i as int);
                let t = refs@.take(i + 1);
                assert forall|x: u32| t.contains(x) == (s.contains(x) || x == refs@[i as int]) by {
                    if s.contains(x) {
                        let k = choose|k: int| 0 <= k < s.len() && s[k] == x;
                        assert(t[k] == x);
                    }
                    assert(t[i as int] == refs@[i as int]);
                }
            }
            assert(self@ =~= before.refer(refs@.take(i + 1)));
            i = i + 1;
        }
        assert(refs@.take(i as int) =~= refs@);
    }

    /// Adds a global.
    pub fn add_global(&mut self, global: Global<'_>, features: &WasmFeatures, offset: usize) -> (
    result: Result<()>)
        requires
            global@.init_expr.wf(),
        ensures
            (final(self)@, result) == old(self)@.add_global(global@, *features, offset as int),
    {
        features.check_value_type_at(global.ty.content_type, offset)?;
        let refs = self.check_init_expr(&global.init_expr, global.ty.content_type, features)?;
        self.refer(&refs);
        self.globals.push(global.ty);
        Ok(())
    }

    /// Checks a data segment.
    pub fn check_data_segment(&self, data: &Data<'_>, features: &WasmFeatures, offset: usize) -> (
    result: Result<()>)
        requires
            data@.kind matches DataKindView::Active { init_expr, .. } ==> init_expr.wf(),
        ensures
            result == self@.data_segment(data@, *features, offset as int),
    {
        match &data.kind {
            DataKind::Passive => Ok(()),
            DataKind::Active { memory_index, init_expr } => {
                let memory = self.memory_at(*memory_index, offset)?;
                self.check_init_expr(init_expr, memory.index_type(), features)?;
                Ok(())
            },
        }
    }

    fn add_element_functions(&mut self, list: &Vec<Placed<u32>>, ty: Type) -> (result: Result<()>)
        ensures
            (final(self)@, result) == old(self)@.element_functions(views(list@), 0, ty),
    {
        let mut i: usize = 0;
        let ghost before = self@;
        while i < list.len()
            invariant
                i <= list@.len(),
                before == old(self)@,
                before.element_functions(views(list@), 0, ty) == self@.element_functions(
                    views(list@),
                    i as int,
                    ty,
                ),
            decreases list@.len() - i,
        {
            assert(views(list@)[i as int] == list@[i as int]@);
            let offset = list[i].offset;
            let func = list[i].item;
            if ty != Type::FuncRef {
                return Err(
                    BinaryReaderError::new(
                        "type mismatch: segment does not have funcref type",
                        offset,
                    ),
                );
            }
            if func as usize >= self.functions.len() {
                return Err(
                    BinaryReaderError::with_number(
                        "unknown function ",
                        func as u64,
                        ": func index out of bounds",
                        offset,
                    ),
                );
            }
            self.function_references.insert(func);
            i = i + 1;
        }
        Ok(())
    }

    fn add_element_expressions(
        &mut self,
        list: &Vec<Placed<ConstExpr<'_>>>,
        ty: Type,
        features: &WasmFeatures,
    ) -> (result: Result<()>)
        requires
            forall|i: int| 0 <= i < list@.len() ==> (#[trigger] views(list@)[i]).item.wf(),
        ensures
            (final(self)@, result) == old(self)@.element_expressions(views(list@), 0, ty, *features),
    {
        let mut i: usize = 0;
        let ghost before = self@;
        while i < list.len()
            invariant
                i <= list@.len(),
                before == old(self)@,
                forall|i: int| 0 <= i < list@.len() ==> (#[trigger] views(list@)[i]).item.wf(),
                before.element_expressions(views(list@), 0, ty, *features)
                    == self@.element_expressions(views(list@), i as int, ty, *features),
            decreases list@.len() - i,
        {
            assert(views(list@)[i as int] == list@[i as int]@);
            let refs = self.check_init_expr(&list[i].item, ty, features)?;
            self.refer(&refs);
            i = i + 1;
        }
        Ok(())
    }

    /// Adds an element segment.
    pub fn add_element_segment(
        &mut self,
        element: Element<'_>,
        features: &WasmFeatures,
        offset: usize,
    ) -> (result: Result<()>)
        requires
            element@.kind matches ElementKindView::Active { init_expr, .. } ==> init_expr.wf(),
            element@.items matches ElementItemsView::Expressions(list) ==> forall|i: int|
                0 <= i < list.len() ==> (#[trigger] list[i]).item.wf(),
        ensures
            (final(self)@, result) == old(self)@.add_element_segment(
                element@,
                *features,
                offset as int,
            ),
    {
        // the `funcref` value type has always been there
        if element.ty != Type::FuncRef {
            features.check_value_type_at(element.ty, offset)?;
        }
        if !element.ty.is_reference() {
            return Err(BinaryReaderError::new("invalid reference type", offset));
        }
        let refs = match &element.kind {
            ElementKind::Active { table_index, init_expr } => {
                let table = self.table_at(*table_index, offset)?;
                if element.ty != table.element_type {
                    return Err(
                        BinaryReaderError::new("invalid element type for table type", offset),
                    );
                }
                self.check_init_expr(init_expr, Type::I32, features)?
            },
            ElementKind::Passive | ElementKind::Declared => {
                if !features.bulk_memory {
                    return Err(BinaryReaderError::new("bulk memory must be enabled", offset));
                }
                Vec::new()
            },
        };
        self.refer(&refs);
        match &element.items {
            ElementItems::Functions(list) => {
                if list.len() > MAX_WASM_TABLE_ENTRIES {
                    return Err(BinaryReaderError::new("number of elements is out of bounds", offset));
                }
                self.add_element_functions(list, element.ty)?;
            },
            ElementItems::Expressions(list) => {
                if list.len() > MAX_WASM_TABLE_ENTRIES {
                    return Err(BinaryReaderError::new("number of elements is out of bounds", offset));
                }
                self.add_element_expressions(list, element.ty, features)?;
            },
        }
        self.element_types.push(element.ty);
        Ok(())
    }
}

} // verus!
