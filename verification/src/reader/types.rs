//! Value types, and the types of what a module imports, defines and exports.

use super::binary_reader::{BinaryReader, Cursor};
use crate::error::{error_at, viewed, word_error_at, BinaryReaderError, Result};
use crate::limits::{MAX_WASM_FUNCTION_PARAMS, MAX_WASM_FUNCTION_RETURNS};
use vstd::prelude::*;

verus! {

/// Something that can be read from the bytes of a section.
pub trait FromReader<'a>: Sized + View {
    /// What stands at a place, and the place behind it.
    spec fn parse(c: Cursor) -> (Cursor, Result<Self::V>);

    /// What is read can be read further: every place in it lies in its bytes.
    open spec fn valid(value: Self::V) -> bool {
        true
    }

    /// Reads what stands next.
    fn from_reader(reader: &mut BinaryReader<'a>) -> (result: Result<Self>)
        requires
            old(reader).wf(),
        ensures
            final(reader).wf(),
            final(reader)@.follows(old(reader)@),
            (final(reader)@, viewed(result)) == Self::parse(old(reader)@),
            result matches Ok(value) ==> Self::valid(value@),
    ;
}

/// The views of the values of a sequence.
pub open spec fn views<T: View>(s: Seq<T>) -> Seq<T::V> {
    s.map_values(|x: T| x@)
}

/// `n` values one behind the other, put behind those of `acc`.
pub open spec fn parse_list<'a, T: FromReader<'a>>(c: Cursor, n: nat, acc: Seq<T::V>) -> (
    Cursor,
    Result<Seq<T::V>>,
)
    decreases n,
{
    if n == 0 {
        (c, Ok(acc))
    } else {
        match T::parse(c) {
            (c, Err(e)) => (c, Err(e)),
            (c, Ok(x)) => parse_list::<T>(c, (n - 1) as nat, acc.push(x)),
        }
    }
}

/// Reads `n` values.
pub fn read_list<'a, T: FromReader<'a>>(reader: &mut BinaryReader<'a>, n: usize) -> (result: Result<
    Vec<T>,
>)
    requires
        old(reader).wf(),
    ensures
        final(reader).wf(),
        final(reader)@.follows(old(reader)@),
        match (result, parse_list::<T>(old(reader)@, n as nat, Seq::empty())) {
            (Ok(list), (c, Ok(s))) => final(reader)@ == c && views(list@) == s,
            (Err(e), (c, Err(f))) => final(reader)@ == c && e == f,
            _ => false,
        },
        result matches Ok(list) ==> forall|i: int|
            0 <= i < list@.len() ==> T::valid(#[trigger] views(list@)[i]),
{
    let mut list: Vec<T> = Vec::new();
    let mut i: usize = 0;
    let ghost start = reader@;
    assert(views(list@) =~= Seq::<T::V>::empty());
    while i < n
        invariant
            i <= n,
            reader.wf(),
            start == old(reader)@,
            reader@.follows(start),
            forall|j: int| 0 <= j < list@.len() ==> T::valid(#[trigger] views(list@)[j]),
            parse_list::<T>(start, n as nat, Seq::empty()) == parse_list::<T>(
                reader@,
                (n - i) as nat,
                views(list@),
            ),
        decreases n - i,
    {
        let ghost before = views(list@);
        let x = T::from_reader(reader)?;
        list.push(x);
        assert(views(list@) =~= before.push(x@));
        i = i + 1;
    }
    Ok(list)
}

/// The error for a byte that starts nothing known.
pub open spec fn bad_leading_byte(what: &'static str, offset: int) -> BinaryReaderError {
    word_error_at("invalid leading byte for ", what, "", offset)
}

/// The type of a WebAssembly value.
#[derive(Debug, Copy, Clone, PartialEq, Eq, Structural)]
pub enum Type {
    /// A 32-bit integer.
    I32,
    /// A 64-bit integer.
    I64,
    /// A 32-bit float.
    F32,
    /// A 64-bit float.
    F64,
    /// A 128-bit vector.
    V128,
    /// A reference to a function.
    FuncRef,
    /// A reference to something of the host.
    ExternRef,
}

impl View for Type {
    type V = Type;

    open spec fn view(&self) -> Type {
        *self
    }
}

impl Type {
    /// The type that a byte stands for.
    pub open spec fn of_byte(byte: u8) -> Option<Type> {
        if byte == 0x7f {
            Some(Type::I32)
        } else if byte == 0x7e {
            Some(Type::I64)
        } else if byte == 0x7d {
            Some(Type::F32)
        } else if byte == 0x7c {
            Some(Type::F64)
        } else if byte == 0x7b {
            Some(Type::V128)
        } else if byte == 0x70 {
            Some(Type::FuncRef)
        } else if byte == 0x6f {
            Some(Type::ExternRef)
        } else {
            None
        }
    }

    /// The type that a byte stands for, if it stands for one.
    pub fn from_byte(byte: u8) -> (ty: Option<Type>)
        ensures
            ty == Type::of_byte(byte),
    {
        match byte {
            0x7f => Some(Type::I32),
            0x7e => Some(Type::I64),
            0x7d => Some(Type::F32),
            0x7c => Some(Type::F64),
            0x7b => Some(Type::V128),
            0x70 => Some(Type::FuncRef),
            0x6f => Some(Type::ExternRef),
            _ => None,
        }
    }

    /// The byte that stands for the type.
    pub open spec fn byte(self) -> u8 {
        match self {
            Type::I32 => 0x7f,
            Type::I64 => 0x7e,
            Type::F32 => 0x7d,
            Type::F64 => 0x7c,
            Type::V128 => 0x7b,
            Type::FuncRef => 0x70,
            Type::ExternRef => 0x6f,
        }
    }

    /// The byte that stands for the type.
    pub fn to_byte(self) -> (byte: u8)
        ensures
            byte == self.byte(),
    {
        match self {
            Type::I32 => 0x7f,
            Type::I64 => 0x7e,
            Type::F32 => 0x7d,
            Type::F64 => 0x7c,
            Type::V128 => 0x7b,
            Type::FuncRef => 0x70,
            Type::ExternRef => 0x6f,
        }
    }

    /// The type is one of references.
    pub open spec fn reference(self) -> bool {
        self == Type::FuncRef || self == Type::ExternRef
    }

    /// Whether the type is one of references.
    pub fn is_reference(self) -> (yes: bool)
        ensures
            yes == self.reference(),
    {
        matches!(self, Type::FuncRef | Type::ExternRef)
    }
}

impl<'a> FromReader<'a> for Type {
    open spec fn parse(c: Cursor) -> (Cursor, Result<Type>) {
        match c.byte() {
            (d, Err(e)) => (d, Err(e)),
            (d, Ok(b)) => match Type::of_byte(b) {
                Some(ty) => (d, Ok(ty)),
                None => (d, Err(error_at("invalid value type", c.offset()))),
            },
        }
    }

    fn from_reader(reader: &mut BinaryReader<'a>) -> (result: Result<Type>) {
        let offset = reader.original_position();
        let byte = reader.read_u8()?;
        match Type::from_byte(byte) {
            Some(ty) => Ok(ty),
            None => Err(BinaryReaderError::new("invalid value type", offset)),
        }
    }
}

impl<'a> FromReader<'a> for u32 {
    open spec fn parse(c: Cursor) -> (Cursor, Result<u32>) {
        c.var_u32()
    }

    fn from_reader(reader: &mut BinaryReader<'a>) -> (result: Result<u32>) {
        reader.read_var_u32()
    }
}

/// The type of a function: what it takes and what it gives.
#[derive(Debug, Clone, PartialEq, Eq)]
pub struct FuncType {
    /// The types of the parameters.
    pub params: Vec<Type>,
    /// The types of the results.
    pub returns: Vec<Type>,
}

/// What a [`FuncType`] holds.
#[verifier::ext_equal]
pub struct FuncTypeView {
    /// The types of the parameters.
    pub params: Seq<Type>,
    /// The types of the results.
    pub returns: Seq<Type>,
}

impl View for FuncType {
    type V = FuncTypeView;

    open spec fn view(&self) -> FuncTypeView {
        FuncTypeView { params: self.params@, returns: self.returns@ }
    }
}

/// A copy of a list of value types.
pub fn copy_types(types: &Vec<Type>) -> (copy: Vec<Type>)
    ensures
        copy@ == types@,
{
    let mut copy: Vec<Type> = Vec::new();
    let mut i: usize = 0;
    while i < types.len()
        invariant
            i <= types@.len(),
            copy@ == types@.take(i as int),
        decreases types@.len() - i,
    {
        copy.push(types[i]);
        i = i + 1;
    }
    copy
}

/// As many value types as the number in front of them says, which is at most `limit`.
pub open spec fn parse_types(c: Cursor, limit: int, what: &'static str) -> (
    Cursor,
    Result<Seq<Type>>,
) {
    match c.size(limit, what) {
        (c, Err(e)) => (c, Err(e)),
        (c, Ok(n)) => parse_list::<Type>(c, n as nat, Seq::empty()),
    }
}

fn read_types<'a>(reader: &mut BinaryReader<'a>, limit: usize, what: &'static str) -> (result:
    Result<Vec<Type>>)
    requires
        old(reader).wf(),
    ensures
        final(reader).wf(),
        final(reader)@.follows(old(reader)@),
        (final(reader)@, viewed(result)) == parse_types(old(reader)@, limit as int, what),
{
    let n = reader.read_size(limit, what)?;
    let list = read_list::<Type>(reader, n)?;
    assert(views(list@) =~= list@);
    Ok(list)
}

impl<'a> FromReader<'a> for FuncType {
    open spec fn parse(c: Cursor) -> (Cursor, Result<FuncTypeView>) {
        match parse_types(c, MAX_WASM_FUNCTION_PARAMS as int, "function params") {
            (c, Err(e)) => (c, Err(e)),
            (c, Ok(params)) => match parse_types(
                c,
                MAX_WASM_FUNCTION_RETURNS as int,
                "function returns",
            ) {
                (c, Err(e)) => (c, Err(e)),
                (c, Ok(results)) => (c, Ok(FuncTypeView { params, returns: results })),
            },
        }
    }

    fn from_reader(reader: &mut BinaryReader<'a>) -> (result: Result<FuncType>) {
        let params = read_types(reader, MAX_WASM_FUNCTION_PARAMS, "function params")?;
        let results = read_types(reader, MAX_WASM_FUNCTION_RETURNS, "function returns")?;
        Ok(FuncType { params, returns: results })
    }
}

/// A definition in a type section.
#[derive(Debug)]
pub enum TypeDef {
    /// A function type.
    Func(FuncType),
}

/// What a [`TypeDef`] holds.
pub enum TypeDefView {
    /// A function type.
    Func(FuncTypeView),
}

impl View for TypeDef {
    type V = TypeDefView;

    open spec fn view(&self) -> TypeDefView {
        match self {
            TypeDef::Func(ty) => TypeDefView::Func(ty@),
        }
    }
}

impl<'a> FromReader<'a> for TypeDef {
    open spec fn parse(c: Cursor) -> (Cursor, Result<TypeDefView>) {
        match c.byte() {
            (d, Err(e)) => (d, Err(e)),
            (d, Ok(b)) => if b == 0x60 {
                match <FuncType as FromReader>::parse(d) {
                    (d, Err(e)) => (d, Err(e)),
                    (d, Ok(ty)) => (d, Ok(TypeDefView::Func(ty))),
                }
            } else {
                (d, Err(bad_leading_byte("type definition", c.offset())))
            },
        }
    }

    fn from_reader(reader: &mut BinaryReader<'a>) -> (result: Result<TypeDef>) {
        let offset = reader.original_position();
        let byte = reader.read_u8()?;
        if byte == 0x60 {
            let ty = FuncType::from_reader(reader)?;
            Ok(TypeDef::Func(ty))
        } else {
            Err(
                BinaryReaderError::with_word(
                    "invalid leading byte for ",
                    "type definition",
                    "",
                    offset,
                ),
            )
        }
    }
}

/// The type of a table.
#[derive(Debug, Copy, Clone, PartialEq, Eq, Structural)]
pub struct TableType {
    /// The type of the elements.
    pub element_type: Type,
    /// How many elements there are at first.
    pub initial: u32,
    /// How many elements there can be at most.
    pub maximum: Option<u32>,
}

impl View for TableType {
    type V = TableType;

    open spec fn view(&self) -> TableType {
        *self
    }
}

impl<'a> FromReader<'a> for TableType {
    open spec fn parse(c: Cursor) -> (Cursor, Result<TableType>) {
        match <Type as FromReader>::parse(c) {
            (c, Err(e)) => (c, Err(e)),
            (c, Ok(element_type)) => match c.byte() {
                (d, Err(e)) => (d, Err(e)),
                (d, Ok(flags)) => if flags > 1 {
                    (d, Err(error_at("invalid table resizable limits flags", c.offset())))
                } else {
                    match d.var_u32() {
                        (d, Err(e)) => (d, Err(e)),
                        (d, Ok(initial)) => if flags == 0 {
                            (d, Ok(TableType { element_type, initial, maximum: None }))
                        } else {
                            match d.var_u32() {
                                (d, Err(e)) => (d, Err(e)),
                                (d, Ok(max)) => (
                                    d,
                                    Ok(TableType { element_type, initial, maximum: Some(max) }),
                                ),
                            }
                        },
                    }
                },
            },
        }
    }

    fn from_reader(reader: &mut BinaryReader<'a>) -> (result: Result<TableType>) {
        let element_type = Type::from_reader(reader)?;
        let offset = reader.original_position();
        let flags = reader.read_u8()?;
        if flags > 1 {
            return Err(BinaryReaderError::new("invalid table resizable limits flags", offset));
        }
        let initial = reader.read_var_u32()?;
        let maximum = if flags == 0 {
            None
        } else {
            Some(reader.read_var_u32()?)
        };
        Ok(TableType { element_type, initial, maximum })
    }
}

/// The type of a memory.
#[derive(Debug, Copy, Clone, PartialEq, Eq, Structural)]
pub struct MemoryType {
    /// Whether addresses have 64 bits.
    pub memory64: bool,
    /// Whether the memory is shared between threads.
    pub shared: bool,
    /// How many pages there are at first.
    pub initial: u64,
    /// How many pages there can be at most.
    pub maximum: Option<u64>,
}

impl View for MemoryType {
    type V = MemoryType;

    open spec fn view(&self) -> MemoryType {
        *self
    }
}

impl MemoryType {
    /// The type of the addresses.
    pub open spec fn address_type(self) -> Type {
        if self.memory64 {
            Type::I64
        } else {
            Type::I32
        }
    }

    /// The type of the addresses.
    pub fn index_type(&self) -> (ty: Type)
        ensures
            ty == self.address_type(),
    {
        if self.memory64 {
            Type::I64
        } else {
            Type::I32
        }
    }
}

/// A number of pages, which has 64 bits in a 64-bit memory and 32 bits in others.
pub open spec fn parse_pages(c: Cursor, memory64: bool) -> (Cursor, Result<u64>) {
    if memory64 {
        c.var_u64()
    } else {
        match c.var_u32() {
            (c, Err(e)) => (c, Err(e)),
            (c, Ok(n)) => (c, Ok(n as u64)),
        }
    }
}

fn read_pages<'a>(reader: &mut BinaryReader<'a>, memory64: bool) -> (result: Result<u64>)
    requires
        old(reader).wf(),
    ensures
        final(reader).wf(),
        final(reader)@.follows(old(reader)@),
        (final(reader)@, result) == parse_pages(old(reader)@, memory64),
{
    if memory64 {
        reader.read_var_u64()
    } else {
        let n = reader.read_var_u32()?;
        Ok(n as u64)
    }
}

impl<'a> FromReader<'a> for MemoryType {
    open spec fn parse(c: Cursor) -> (Cursor, Result<MemoryType>) {
        match c.byte() {
            (d, Err(e)) => (d, Err(e)),
            (d, Ok(flags)) => if flags >= 8 {
                (d, Err(error_at("invalid memory limits flags", c.offset())))
            } else {
                let memory64 = flags / 4 == 1;
                let shared = (flags / 2) % 2 == 1;
                match parse_pages(d, memory64) {
                    (d, Err(e)) => (d, Err(e)),
                    (d, Ok(initial)) => if flags % 2 == 0 {
                        (d, Ok(MemoryType { memory64, shared, initial, maximum: None }))
                    } else {
                        match parse_pages(d, memory64) {
                            (d, Err(e)) => (d, Err(e)),
                            (d, Ok(max)) => (
                                d,
                                Ok(MemoryType { memory64, shared, initial, maximum: Some(max) }),
                            ),
                        }
                    },
                }
            },
        }
    }

    fn from_reader(reader: &mut BinaryReader<'a>) -> (result: Result<MemoryType>) {
        let offset = reader.original_position();
        let flags = reader.read_u8()?;
        if flags >= 8 {
            return Err(BinaryReaderError::new("invalid memory limits flags", offset));
        }
        let memory64 = flags / 4 == 1;
        let shared = (flags / 2) % 2 == 1;
        let initial = read_pages(reader, memory64)?;
        let maximum = if flags % 2 == 0 {
            None
        } else {
            Some(read_pages(reader, memory64)?)
        };
        Ok(MemoryType { memory64, shared, initial, maximum })
    }
}

/// The type of a global.
#[derive(Debug, Copy, Clone, PartialEq, Eq, Structural)]
pub struct GlobalType {
    /// The type of the value.
    pub content_type: Type,
    /// Whether the value can change.
    pub mutable: bool,
}

impl View for GlobalType {
    type V = GlobalType;

    open spec fn view(&self) -> GlobalType {
        *self
    }
}

impl<'a> FromReader<'a> for GlobalType {
    open spec fn parse(c: Cursor) -> (Cursor, Result<GlobalType>) {
        match <Type as FromReader>::parse(c) {
            (c, Err(e)) => (c, Err(e)),
            (c, Ok(content_type)) => match c.byte() {
                (d, Err(e)) => (d, Err(e)),
                (d, Ok(b)) => if b > 1 {
                    (d, Err(error_at("malformed mutability", c.offset())))
                } else {
                    (d, Ok(GlobalType { content_type, mutable: b == 1 }))
                },
            },
        }
    }

    fn from_reader(reader: &mut BinaryReader<'a>) -> (result: Result<GlobalType>) {
        let content_type = Type::from_reader(reader)?;
        let offset = reader.original_position();
        let byte = reader.read_u8()?;
        if byte > 1 {
            return Err(BinaryReaderError::new("malformed mutability", offset));
        }
        Ok(GlobalType { content_type, mutable: byte == 1 })
    }
}

/// The type of a tag, which is that of an exception.
#[derive(Debug, Copy, Clone, PartialEq, Eq, Structural)]
pub struct TagType {
    /// The index of the function type that says what an exception carries.
    pub func_type_idx: u32,
}

impl View for TagType {
    type V = TagType;

    open spec fn view(&self) -> TagType {
        *self
    }
}

impl<'a> FromReader<'a> for TagType {
    open spec fn parse(c: Cursor) -> (Cursor, Result<TagType>) {
        match c.byte() {
            (d, Err(e)) => (d, Err(e)),
            (d, Ok(b)) => if b != 0 {
                (d, Err(error_at("invalid tag attributes", c.offset())))
            } else {
                match d.var_u32() {
                    (d, Err(e)) => (d, Err(e)),
                    (d, Ok(func_type_idx)) => (d, Ok(TagType { func_type_idx })),
                }
            },
        }
    }

    fn from_reader(reader: &mut BinaryReader<'a>) -> (result: Result<TagType>) {
        let offset = reader.original_position();
        let byte = reader.read_u8()?;
        if byte != 0 {
            return Err(BinaryReaderError::new("invalid tag attributes", offset));
        }
        let func_type_idx = reader.read_var_u32()?;
        Ok(TagType { func_type_idx })
    }
}

/// What kind of thing is imported or exported.
#[derive(Debug, Copy, Clone, PartialEq, Eq, Structural)]
pub enum ExternalKind {
    /// A function.
    Func,
    /// A table.
    Table,
    /// A memory.
    Memory,
    /// A global.
    Global,
    /// A tag.
    Tag,
}

impl View for ExternalKind {
    type V = ExternalKind;

    open spec fn view(&self) -> ExternalKind {
        *self
    }
}

impl<'a> FromReader<'a> for ExternalKind {
    open spec fn parse(c: Cursor) -> (Cursor, Result<ExternalKind>) {
        match c.byte() {
            (d, Err(e)) => (d, Err(e)),
            (d, Ok(b)) => if b == 0 {
                (d, Ok(ExternalKind::Func))
            } else if b == 1 {
                (d, Ok(ExternalKind::Table))
            } else if b == 2 {
                (d, Ok(ExternalKind::Memory))
            } else if b == 3 {
                (d, Ok(ExternalKind::Global))
            } else if b == 4 {
                (d, Ok(ExternalKind::Tag))
            } else {
                (d, Err(bad_leading_byte("external kind", c.offset())))
            },
        }
    }

    fn from_reader(reader: &mut BinaryReader<'a>) -> (result: Result<ExternalKind>) {
        let offset = reader.original_position();
        let byte = reader.read_u8()?;
        match byte {
            0 => Ok(ExternalKind::Func),
            1 => Ok(ExternalKind::Table),
            2 => Ok(ExternalKind::Memory),
            3 => Ok(ExternalKind::Global),
            4 => Ok(ExternalKind::Tag),
            _ => Err(
                BinaryReaderError::with_word(
                    "invalid leading byte for ",
                    "external kind",
                    "",
                    offset,
                ),
            ),
        }
    }
}

/// The type of an import as it is written, with types of functions by index.
#[derive(Debug, Copy, Clone, PartialEq, Eq, Structural)]
pub enum TypeRef {
    /// A function, by the index of its type.
    Func(u32),
    /// A table.
    Table(TableType),
    /// A memory.
    Memory(MemoryType),
    /// A global.
    Global(GlobalType),
    /// A tag.
    Tag(TagType),
}

impl View for TypeRef {
    type V = TypeRef;

    open spec fn view(&self) -> TypeRef {
        *self
    }
}

impl<'a> FromReader<'a> for TypeRef {
    open spec fn parse(c: Cursor) -> (Cursor, Result<TypeRef>) {
        match <ExternalKind as FromReader>::parse(c) {
            (c, Err(e)) => (c, Err(e)),
            (c, Ok(kind)) => match kind {
                ExternalKind::Func => match c.var_u32() {
                    (c, Err(e)) => (c, Err(e)),
                    (c, Ok(index)) => (c, Ok(TypeRef::Func(index))),
                },
                ExternalKind::Table => match <TableType as FromReader>::parse(c) {
                    (c, Err(e)) => (c, Err(e)),
                    (c, Ok(ty)) => (c, Ok(TypeRef::Table(ty))),
                },
                ExternalKind::Memory => match <MemoryType as FromReader>::parse(c) {
                    (c, Err(e)) => (c, Err(e)),
                    (c, Ok(ty)) => (c, Ok(TypeRef::Memory(ty))),
                },
                ExternalKind::Global => match <GlobalType as FromReader>::parse(c) {
                    (c, Err(e)) => (c, Err(e)),
                    (c, Ok(ty)) => (c, Ok(TypeRef::Global(ty))),
                },
                ExternalKind::Tag => match <TagType as FromReader>::parse(c) {
                    (c, Err(e)) => (c, Err(e)),
                    (c, Ok(ty)) => (c, Ok(TypeRef::Tag(ty))),
                },
            },
        }
    }

    fn from_reader(reader: &mut BinaryReader<'a>) -> (result: Result<TypeRef>) {
        let kind = ExternalKind::from_reader(reader)?;
        match kind {
            ExternalKind::Func => Ok(TypeRef::Func(reader.read_var_u32()?)),
            ExternalKind::Table => Ok(TypeRef::Table(TableType::from_reader(reader)?)),
            ExternalKind::Memory => Ok(TypeRef::Memory(MemoryType::from_reader(reader)?)),
            ExternalKind::Global => Ok(TypeRef::Global(GlobalType::from_reader(reader)?)),
            ExternalKind::Tag => Ok(TypeRef::Tag(TagType::from_reader(reader)?)),
        }
    }
}

/// An import of a module.
#[derive(Debug, Copy, Clone)]
pub struct Import<'a> {
    /// The module that is imported from.
    pub module: &'a str,
    /// The name of what is imported.
    pub name: &'a str,
    /// Its type.
    pub ty: TypeRef,
}

/// What an [`Import`] holds.
pub struct ImportView {
    /// The module that is imported from.
    pub module: Seq<char>,
    /// The name of what is imported.
    pub name: Seq<char>,
    /// Its type.
    pub ty: TypeRef,
}

impl<'a> View for Import<'a> {
    type V = ImportView;

    open spec fn view(&self) -> ImportView {
        ImportView { module: self.module@, name: self.name@, ty: self.ty }
    }
}

impl<'a> FromReader<'a> for Import<'a> {
    open spec fn parse(c: Cursor) -> (Cursor, Result<ImportView>) {
        match c.string() {
            (c, Err(e)) => (c, Err(e)),
            (c, Ok(module)) => match c.string() {
                (c, Err(e)) => (c, Err(e)),
                (c, Ok(name)) => match <TypeRef as FromReader>::parse(c) {
                    (c, Err(e)) => (c, Err(e)),
                    (c, Ok(ty)) => (c, Ok(ImportView { module, name, ty })),
                },
            },
        }
    }

    fn from_reader(reader: &mut BinaryReader<'a>) -> (result: Result<Import<'a>>) {
        let module = reader.read_string()?;
        let name = reader.read_string()?;
        let ty = TypeRef::from_reader(reader)?;
        Ok(Import { module, name, ty })
    }
}

/// An export of a module.
#[derive(Debug, Copy, Clone)]
pub struct Export<'a> {
    /// The name of the export.
    pub name: &'a str,
    /// What kind of thing is exported.
    pub kind: ExternalKind,
    /// The index of what is exported.
    pub index: u32,
}

/// What an [`Export`] holds.
pub struct ExportView {
    /// The name of the export.
    pub name: Seq<char>,
    /// What kind of thing is exported.
    pub kind: ExternalKind,
    /// The index of what is exported.
    pub index: u32,
}

impl<'a> View for Export<'a> {
    type V = ExportView;

    open spec fn view(&self) -> ExportView {
        ExportView { name: self.name@, kind: self.kind, index: self.index }
    }
}

impl<'a> FromReader<'a> for Export<'a> {
    open spec fn parse(c: Cursor) -> (Cursor, Result<ExportView>) {
        match c.string() {
            (c, Err(e)) => (c, Err(e)),
            (c, Ok(name)) => match <ExternalKind as FromReader>::parse(c) {
                (c, Err(e)) => (c, Err(e)),
                (c, Ok(kind)) => match c.var_u32() {
                    (c, Err(e)) => (c, Err(e)),
                    (c, Ok(index)) => (c, Ok(ExportView { name, kind, index })),
                },
            },
        }
    }

    fn from_reader(reader: &mut BinaryReader<'a>) -> (result: Result<Export<'a>>) {
        let name = reader.read_string()?;
        let kind = ExternalKind::from_reader(reader)?;
        let index = reader.read_var_u32()?;
        Ok(Export { name, kind, index })
    }
}

} // verus!
