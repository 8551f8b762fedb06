//! The types that a component defines.

use crate::error::{error_at, viewed, BinaryReaderError, Result};
use crate::limits::{
    MAX_WASM_COMPONENT_TYPE_DECLS, MAX_WASM_ENUM_CASES, MAX_WASM_FLAG_NAMES,
    MAX_WASM_FUNCTION_PARAMS, MAX_WASM_INSTANCE_TYPE_DECLS, MAX_WASM_MODULE_TYPE_DECLS,
    MAX_WASM_RECORD_FIELDS, MAX_WASM_TUPLE_TYPES, MAX_WASM_UNION_TYPES, MAX_WASM_VARIANT_CASES,
};
use crate::reader::binary_reader::{BinaryReader, Cursor};
use crate::reader::types::{
    bad_leading_byte, parse_list, read_list, views, FromReader, Import, ImportView, TypeDef,
    TypeDefView, TypeRef,
};
use vstd::prelude::*;

verus! {

/// A count of at most `limit`, and then so many values; `what` names them in errors.
pub open spec fn parse_counted<'a, T: FromReader<'a>>(
    c: Cursor,
    limit: int,
    what: &'static str,
) -> (Cursor, Result<Seq<T::V>>) {
    match c.size(limit, what) {
        (c, Err(e)) => (c, Err(e)),
        (c, Ok(n)) => parse_list::<T>(c, n as nat, Seq::empty()),
    }
}

/// Reads a count of at most `limit`, and then so many values.
pub fn read_counted<'a, T: FromReader<'a>>(
    reader: &mut BinaryReader<'a>,
    limit: usize,
    what: &'static str,
) -> (result: Result<Vec<T>>)
    requires
        old(reader).wf(),
    ensures
        final(reader).wf(),
        final(reader)@.follows(old(reader)@),
        match (result, parse_counted::<T>(old(reader)@, limit as int, what)) {
            (Ok(list), (c, Ok(s))) => final(reader)@ == c && views(list@) == s,
            (Err(e), (c, Err(f))) => final(reader)@ == c && e == f,
            _ => false,
        },
{
    let n = reader.read_size(limit, what)?;
    read_list::<T>(reader, n)
}

impl<'a> FromReader<'a> for &'a str {
    open spec fn parse(c: Cursor) -> (Cursor, Result<Seq<char>>) {
        c.string()
    }

    fn from_reader(reader: &mut BinaryReader<'a>) -> (result: Result<&'a str>) {
        reader.read_string()
    }
}

/// An interface type without parts.
#[derive(Debug, Copy, Clone, PartialEq, Eq, Structural)]
pub enum PrimitiveInterfaceType {
    /// The type with one value.
    Unit,
    /// A truth value.
    Bool,
    /// A signed 8-bit integer.
    S8,
    /// An unsigned 8-bit integer.
    U8,
    /// A signed 16-bit integer.
    S16,
    /// An unsigned 16-bit integer.
    U16,
    /// A signed 32-bit integer.
    S32,
    /// An unsigned 32-bit integer.
    U32,
    /// A signed 64-bit integer.
    S64,
    /// An unsigned 64-bit integer.
    U64,
    /// A 32-bit float.
    Float32,
    /// A 64-bit float.
    Float64,
    /// A Unicode scalar value.
    Char,
    /// A string.
    String,
}

impl PrimitiveInterfaceType {
    /// The type that a byte stands for.
    pub open spec fn of_byte(byte: u8) -> Option<PrimitiveInterfaceType> {
        if byte == 0x7f {
            Some(PrimitiveInterfaceType::Unit)
        } else if byte == 0x7e {
            Some(PrimitiveInterfaceType::Bool)
        } else if byte == 0x7d {
            Some(PrimitiveInterfaceType::S8)
        } else if byte == 0x7c {
            Some(PrimitiveInterfaceType::U8)
        } else if byte == 0x7b {
            Some(PrimitiveInterfaceType::S16)
        } else if byte == 0x7a {
            Some(PrimitiveInterfaceType::U16)
        } else if byte == 0x79 {
            Some(PrimitiveInterfaceType::S32)
        } else if byte == 0x78 {
            Some(PrimitiveInterfaceType::U32)
        } else if byte == 0x77 {
            Some(PrimitiveInterfaceType::S64)
        } else if byte == 0x76 {
            Some(PrimitiveInterfaceType::U64)
        } else if byte == 0x75 {
            Some(PrimitiveInterfaceType::Float32)
        } else if byte == 0x74 {
            Some(PrimitiveInterfaceType::Float64)
        } else if byte == 0x73 {
            Some(PrimitiveInterfaceType::Char)
        } else if byte == 0x72 {
            Some(PrimitiveInterfaceType::String)
        } else {
            None
        }
    }

    /// The type that a byte stands for.
    pub fn from_byte(byte: u8) -> (ty: Option<PrimitiveInterfaceType>)
        ensures
            ty == Self::of_byte(byte),
    {
        match byte {
            0x7f => Some(PrimitiveInterfaceType::Unit),
            0x7e => Some(PrimitiveInterfaceType::Bool),
            0x7d => Some(PrimitiveInterfaceType::S8),
            0x7c => Some(PrimitiveInterfaceType::U8),
            0x7b => Some(PrimitiveInterfaceType::S16),
            0x7a => Some(PrimitiveInterfaceType::U16),
            0x79 => Some(PrimitiveInterfaceType::S32),
            0x78 => Some(PrimitiveInterfaceType::U32),
            0x77 => Some(PrimitiveInterfaceType::S64),
            0x76 => Some(PrimitiveInterfaceType::U64),
            0x75 => Some(PrimitiveInterfaceType::Float32),
            0x74 => Some(PrimitiveInterfaceType::Float64),
            0x73 => Some(PrimitiveInterfaceType::Char),
            0x72 => Some(PrimitiveInterfaceType::String),
            _ => None,
        }
    }
}

/// An interface type where one is used: a primitive one, or one by index.
#[derive(Debug, Copy, Clone, PartialEq, Eq, Structural)]
pub enum InterfaceTypeRef {
    /// A type without parts.
    Primitive(PrimitiveInterfaceType),
    /// The type with an index.
    Type(u32),
}

impl View for InterfaceTypeRef {
    type V = InterfaceTypeRef;

    open spec fn view(&self) -> InterfaceTypeRef {
        *self
    }
}

impl<'a> FromReader<'a> for InterfaceTypeRef {
    open spec fn parse(c: Cursor) -> (Cursor, Result<InterfaceTypeRef>) {
        match c.byte() {
            (d, Err(e)) => (d, Err(e)),
            (d, Ok(b)) => match PrimitiveInterfaceType::of_byte(b) {
                Some(ty) => (d, Ok(InterfaceTypeRef::Primitive(ty))),
                None => match c.var_s33() {
                    (d, Err(e)) => (d, Err(e)),
                    (d, Ok(n)) => if 0 <= n <= u32::MAX {
                        (d, Ok(InterfaceTypeRef::Type(n as u32)))
                    } else {
                        (d, Err(error_at("invalid interface type index", c.offset())))
                    },
                },
            },
        }
    }

    fn from_reader(reader: &mut BinaryReader<'a>) -> (result: Result<InterfaceTypeRef>) {
        let offset = reader.original_position();
        let byte = reader.peek()?;
        if let Some(ty) = PrimitiveInterfaceType::from_byte(byte) {
            reader.read_u8()?;
            return Ok(InterfaceTypeRef::Primitive(ty));
        }
        let n = reader.read_var_s33()?;
        if 0 <= n && n <= u32::MAX as i64 {
            Ok(InterfaceTypeRef::Type(n as u32))
        } else {
            Err(BinaryReaderError::new("invalid interface type index", offset))
        }
    }
}

/// A field of a record.
#[derive(Debug, Copy, Clone)]
pub struct RecordField<'a> {
    /// The name of the field.
    pub name: &'a str,
    /// Its type.
    pub ty: InterfaceTypeRef,
}

/// What a [`RecordField`] holds.
pub struct RecordFieldView {
    /// The name of the field.
    pub name: Seq<char>,
    /// Its type.
    pub ty: InterfaceTypeRef,
}

impl<'a> View for RecordField<'a> {
    type V = RecordFieldView;

    open spec fn view(&self) -> RecordFieldView {
        RecordFieldView { name: self.name@, ty: self.ty }
    }
}

impl<'a> FromReader<'a> for RecordField<'a> {
    open spec fn parse(c: Cursor) -> (Cursor, Result<RecordFieldView>) {
        match c.string() {
            (c, Err(e)) => (c, Err(e)),
            (c, Ok(name)) => match <InterfaceTypeRef as FromReader>::parse(c) {
                (c, Err(e)) => (c, Err(e)),
                (c, Ok(ty)) => (c, Ok(RecordFieldView { name, ty })),
            },
        }
    }

    fn from_reader(reader: &mut BinaryReader<'a>) -> (result: Result<RecordField<'a>>) {
        let name = reader.read_string()?;
        let ty = InterfaceTypeRef::from_reader(reader)?;
        Ok(RecordField { name, ty })
    }
}

/// A case of a variant.
#[derive(Debug, Copy, Clone)]
pub struct VariantCase<'a> {
    /// The name of the case.
    pub name: &'a str,
    /// The type of what the case carries.
    pub ty: InterfaceTypeRef,
    /// The case that this one can be taken for.
    pub default_to: Option<u32>,
}

/// What a [`VariantCase`] holds.
pub struct VariantCaseView {
    /// The name of the case.
    pub name: Seq<char>,
    /// The type of what the case carries.
    pub ty: InterfaceTypeRef,
    /// The case that this one can be taken for.
    pub default_to: Option<u32>,
}

impl<'a> View for VariantCase<'a> {
    type V = VariantCaseView;

    open spec fn view(&self) -> VariantCaseView {
        VariantCaseView { name: self.name@, ty: self.ty, default_to: self.default_to }
    }
}

/// The case that another can be taken for, if there is one.
pub open spec fn parse_default(c: Cursor) -> (Cursor, Result<Option<u32>>) {
    match c.byte() {
        (d, Err(e)) => (d, Err(e)),
        (d, Ok(b)) => if b == 0 {
            (d, Ok(None))
        } else if b == 1 {
            match d.var_u32() {
                (d, Err(e)) => (d, Err(e)),
                (d, Ok(n)) => (d, Ok(Some(n))),
            }
        } else {
            (d, Err(bad_leading_byte("variant case default", c.offset())))
        },
    }
}

fn read_default(reader: &mut BinaryReader<'_>) -> (result: Result<Option<u32>>)
    requires
        old(reader).wf(),
    ensures
        final(reader).wf(),
        final(reader)@.follows(old(reader)@),
        (final(reader)@, result) == parse_default(old(reader)@),
{
    let offset = reader.original_position();
    match reader.read_u8()? {
        0 => Ok(None),
        1 => Ok(Some(reader.read_var_u32()?)),
        _ => Err(
            BinaryReaderError::with_word(
                "invalid leading byte for ",
                "variant case default",
                "",
                offset,
            ),
        ),
    }
}

impl<'a> FromReader<'a> for VariantCase<'a> {
    open spec fn parse(c: Cursor) -> (Cursor, Result<VariantCaseView>) {
        match c.string() {
            (c, Err(e)) => (c, Err(e)),
            (c, Ok(name)) => match <InterfaceTypeRef as FromReader>::parse(c) {
                (c, Err(e)) => (c, Err(e)),
                (c, Ok(ty)) => match parse_default(c) {
                    (c, Err(e)) => (c, Err(e)),
                    (c, Ok(default_to)) => (c, Ok(VariantCaseView { name, ty, default_to })),
                },
            },
        }
    }

    fn from_reader(reader: &mut BinaryReader<'a>) -> (result: Result<VariantCase<'a>>) {
        let name = reader.read_string()?;
        let ty = InterfaceTypeRef::from_reader(reader)?;
        let default_to = read_default(reader)?;
        Ok(VariantCase { name, ty, default_to })
    }
}

/// An interface type as it is defined.
#[derive(Debug)]
pub enum InterfaceType<'a> {
    /// A type without parts.
    Primitive(PrimitiveInterfaceType),
    /// Named fields.
    Record(Vec<RecordField<'a>>),
    /// One of many cases.
    Variant(Vec<VariantCase<'a>>),
    /// Any number of values.
    List(InterfaceTypeRef),
    /// Values one behind the other.
    Tuple(Vec<InterfaceTypeRef>),
    /// A set of names.
    Flags(Vec<&'a str>),
    /// One of many names.
    Enum(Vec<&'a str>),
    /// A value of one of many types.
    Union(Vec<InterfaceTypeRef>),
    /// A value or none.
    Option(InterfaceTypeRef),
    /// A value or an error.
    Expected {
        /// The value.
        ok: InterfaceTypeRef,
        /// The error.
        error: InterfaceTypeRef,
    },
}

/// What an [`InterfaceType`] holds.
pub enum InterfaceTypeView {
    /// A type without parts.
    Primitive(PrimitiveInterfaceType),
    /// Named fields.
    Record(Seq<RecordFieldView>),
    /// One of many cases.
    Variant(Seq<VariantCaseView>),
    /// Any number of values.
    List(InterfaceTypeRef),
    /// Values one behind the other.
    Tuple(Seq<InterfaceTypeRef>),
    /// A set of names.
    Flags(Seq<Seq<char>>),
    /// One of many names.
    Enum(Seq<Seq<char>>),
    /// A value of one of many types.
    Union(Seq<InterfaceTypeRef>),
    /// A value or none.
    Option(InterfaceTypeRef),
    /// A value or an error.
    Expected {
        /// The value.
        ok: InterfaceTypeRef,
        /// The error.
        error: InterfaceTypeRef,
    },
}

impl<'a> View for InterfaceType<'a> {
    type V = InterfaceTypeView;

    open spec fn view(&self) -> InterfaceTypeView {
        match self {
            InterfaceType::Primitive(ty) => InterfaceTypeView::Primitive(*ty),
            InterfaceType::Record(fields) => InterfaceTypeView::Record(views(fields@)),
            InterfaceType::Variant(cases) => InterfaceTypeView::Variant(views(cases@)),
            InterfaceType::List(ty) => InterfaceTypeView::List(*ty),
            InterfaceType::Tuple(types) => InterfaceTypeView::Tuple(views(types@)),
            InterfaceType::Flags(names) => InterfaceTypeView::Flags(views(names@)),
            InterfaceType::Enum(names) => InterfaceTypeView::Enum(views(names@)),
            InterfaceType::Union(types) => InterfaceTypeView::Union(views(types@)),
            InterfaceType::Option(ty) => InterfaceTypeView::Option(*ty),
            InterfaceType::Expected { ok, error } => InterfaceTypeView::Expected {
                ok: *ok,
                error: *error,
            },
        }
    }
}

/// An interface type that starts with `byte`, at `start`.
pub open spec fn parse_interface(c: Cursor, byte: u8, start: int) -> (
    Cursor,
    Result<InterfaceTypeView>,
) {
    match PrimitiveInterfaceType::of_byte(byte) {
        Some(ty) => (c, Ok(InterfaceTypeView::Primitive(ty))),
        None => if byte == 0x71 {
            match parse_counted::<RecordField>(c, MAX_WASM_RECORD_FIELDS as int, "record field") {
                (c, Err(e)) => (c, Err(e)),
                (c, Ok(fields)) => (c, Ok(InterfaceTypeView::Record(fields))),
            }
        } else if byte == 0x70 {
            match parse_counted::<VariantCase>(c, MAX_WASM_VARIANT_CASES as int, "variant cases") {
                (c, Err(e)) => (c, Err(e)),
                (c, Ok(cases)) => (c, Ok(InterfaceTypeView::Variant(cases))),
            }
        } else if byte == 0x6f {
            match <InterfaceTypeRef as FromReader>::parse(c) {
                (c, Err(e)) => (c, Err(e)),
                (c, Ok(ty)) => (c, Ok(InterfaceTypeView::List(ty))),
            }
        } else if byte == 0x6e {
            match parse_counted::<InterfaceTypeRef>(c, MAX_WASM_TUPLE_TYPES as int, "tuple types") {
                (c, Err(e)) => (c, Err(e)),
                (c, Ok(types)) => (c, Ok(InterfaceTypeView::Tuple(types))),
            }
        } else if byte == 0x6d {
            match parse_counted::<&str>(c, MAX_WASM_FLAG_NAMES as int, "flag names") {
                (c, Err(e)) => (c, Err(e)),
                (c, Ok(names)) => (c, Ok(InterfaceTypeView::Flags(names))),
            }
        } else if byte == 0x6c {
            match parse_counted::<&str>(c, MAX_WASM_ENUM_CASES as int, "enum cases") {
                (c, Err(e)) => (c, Err(e)),
                (c, Ok(names)) => (c, Ok(InterfaceTypeView::Enum(names))),
            }
        } else if byte == 0x6b {
            match parse_counted::<InterfaceTypeRef>(c, MAX_WASM_UNION_TYPES as int, "union types") {
                (c, Err(e)) => (c, Err(e)),
                (c, Ok(types)) => (c, Ok(InterfaceTypeView::Union(types))),
            }
        } else if byte == 0x6a {
            match <InterfaceTypeRef as FromReader>::parse(c) {
                (c, Err(e)) => (c, Err(e)),
                (c, Ok(ty)) => (c, Ok(InterfaceTypeView::Option(ty))),
            }
        } else if byte == 0x69 {
            match <InterfaceTypeRef as FromReader>::parse(c) {
                (c, Err(e)) => (c, Err(e)),
                (c, Ok(ok)) => match <InterfaceTypeRef as FromReader>::parse(c) {
                    (c, Err(e)) => (c, Err(e)),
                    (c, Ok(error)) => (c, Ok(InterfaceTypeView::Expected { ok, error })),
                },
            }
        } else {
            (c, Err(bad_leading_byte("component type", start)))
        },
    }
}

fn read_interface<'a>(reader: &mut BinaryReader<'a>, byte: u8, start: usize) -> (result: Result<
    InterfaceType<'a>,
>)
    requires
        old(reader).wf(),
    ensures
        final(reader).wf(),
        final(reader)@.follows(old(reader)@),
        (final(reader)@, viewed(result)) == parse_interface(old(reader)@, byte, start as int),
{
    if let Some(ty) = PrimitiveInterfaceType::from_byte(byte) {
        return Ok(InterfaceType::Primitive(ty));
    }
    match byte {
        0x71 => Ok(
            InterfaceType::Record(
                read_counted::<RecordField>(reader, MAX_WASM_RECORD_FIELDS, "record field")?,
            ),
        ),
        0x70 => Ok(
            InterfaceType::Variant(
                read_counted::<VariantCase>(reader, MAX_WASM_VARIANT_CASES, "variant cases")?,
            ),
        ),
        0x6f => Ok(InterfaceType::List(InterfaceTypeRef::from_reader(reader)?)),
        0x6e => Ok(
            InterfaceType::Tuple(
                read_counted::<InterfaceTypeRef>(reader, MAX_WASM_TUPLE_TYPES, "tuple types")?,
            ),
        ),
        0x6d => Ok(
            InterfaceType::Flags(
                read_counted::<&'a str>(reader, MAX_WASM_FLAG_NAMES, "flag names")?,
            ),
        ),
        0x6c => Ok(
            InterfaceType::Enum(
                read_counted::<&'a str>(reader, MAX_WASM_ENUM_CASES, "enum cases")?,
            ),
        ),
        0x6b => Ok(
            InterfaceType::Union(
                read_counted::<InterfaceTypeRef>(reader, MAX_WASM_UNION_TYPES, "union types")?,
            ),
        ),
        0x6a => Ok(InterfaceType::Option(InterfaceTypeRef::from_reader(reader)?)),
        0x69 => {
            let ok = InterfaceTypeRef::from_reader(reader)?;
            let error = InterfaceTypeRef::from_reader(reader)?;
            Ok(InterfaceType::Expected { ok, error })
        },
        _ => Err(
            BinaryReaderError::with_word("invalid leading byte for ", "component type", "", start),
        ),
    }
}

/// A parameter of a component function.
#[derive(Debug, Copy, Clone)]
pub struct ComponentParam<'a> {
    /// The name of the parameter, if it has one.
    pub name: Option<&'a str>,
    /// Its type.
    pub ty: InterfaceTypeRef,
}

/// What a [`ComponentParam`] holds.
pub struct ComponentParamView {
    /// The name of the parameter, if it has one.
    pub name: Option<Seq<char>>,
    /// Its type.
    pub ty: InterfaceTypeRef,
}

impl<'a> View for ComponentParam<'a> {
    type V = ComponentParamView;

    open spec fn view(&self) -> ComponentParamView {
        ComponentParamView {
            name: match self.name {
                Some(name) => Some(name@),
                None => None,
            },
            ty: self.ty,
        }
    }
}

/// A name, if there is one.
pub open spec fn parse_optional_name(c: Cursor) -> (Cursor, Result<Option<Seq<char>>>) {
    match c.byte() {
        (d, Err(e)) => (d, Err(e)),
        (d, Ok(b)) => if b == 0 {
            (d, Ok(None))
        } else if b == 1 {
            match d.string() {
                (d, Err(e)) => (d, Err(e)),
                (d, Ok(name)) => (d, Ok(Some(name))),
            }
        } else {
            (d, Err(error_at("invalid optional string encoding", c.offset())))
        },
    }
}

impl<'a> FromReader<'a> for ComponentParam<'a> {
    open spec fn parse(c: Cursor) -> (Cursor, Result<ComponentParamView>) {
        match parse_optional_name(c) {
            (c, Err(e)) => (c, Err(e)),
            (c, Ok(name)) => match <InterfaceTypeRef as FromReader>::parse(c) {
                (c, Err(e)) => (c, Err(e)),
                (c, Ok(ty)) => (c, Ok(ComponentParamView { name, ty })),
            },
        }
    }

    fn from_reader(reader: &mut BinaryReader<'a>) -> (result: Result<ComponentParam<'a>>) {
        let offset = reader.original_position();
        let name = match reader.read_u8()? {
            0 => None,
            1 => Some(reader.read_string()?),
            _ => {
                return Err(BinaryReaderError::new("invalid optional string encoding", offset));
            },
        };
        let ty = InterfaceTypeRef::from_reader(reader)?;
        Ok(ComponentParam { name, ty })
    }
}

/// The type of a component function.
#[derive(Debug)]
pub struct ComponentFuncType<'a> {
    /// What it takes.
    pub params: Vec<ComponentParam<'a>>,
    /// What it gives.
    pub result: InterfaceTypeRef,
}

/// What a [`ComponentFuncType`] holds.
pub struct ComponentFuncTypeView {
    /// What it takes.
    pub params: Seq<ComponentParamView>,
    /// What it gives.
    pub result: InterfaceTypeRef,
}

impl<'a> View for ComponentFuncType<'a> {
    type V = ComponentFuncTypeView;

    open spec fn view(&self) -> ComponentFuncTypeView {
        ComponentFuncTypeView { params: views(self.params@), result: self.result }
    }
}

impl<'a> FromReader<'a> for ComponentFuncType<'a> {
    open spec fn parse(c: Cursor) -> (Cursor, Result<ComponentFuncTypeView>) {
        match parse_counted::<ComponentParam>(
            c,
            MAX_WASM_FUNCTION_PARAMS as int,
            "function parameters",
        ) {
            (c, Err(e)) => (c, Err(e)),
            (c, Ok(params)) => match <InterfaceTypeRef as FromReader>::parse(c) {
                (c, Err(e)) => (c, Err(e)),
                (c, Ok(result)) => (c, Ok(ComponentFuncTypeView { params, result })),
            },
        }
    }

    fn from_reader(reader: &mut BinaryReader<'a>) -> (result: Result<ComponentFuncType<'a>>) {
        let params = read_counted::<ComponentParam>(
            reader,
            MAX_WASM_FUNCTION_PARAMS,
            "function parameters",
        )?;
        let result = InterfaceTypeRef::from_reader(reader)?;
        Ok(ComponentFuncType { params, result })
    }
}

/// A part of the type of a module.
#[derive(Debug)]
pub enum ModuleType<'a> {
    /// A type that the others use.
    Type(TypeDef),
    /// An export.
    Export {
        /// The name of the export.
        name: &'a str,
        /// Its type.
        ty: TypeRef,
    },
    /// An import.
    Import(Import<'a>),
}

/// What a [`ModuleType`] holds.
pub enum ModuleTypeView {
    /// A type that the others use.
    Type(TypeDefView),
    /// An export.
    Export {
        /// The name of the export.
        name: Seq<char>,
        /// Its type.
        ty: TypeRef,
    },
    /// An import.
    Import(ImportView),
}

impl<'a> View for ModuleType<'a> {
    type V = ModuleTypeView;

    open spec fn view(&self) -> ModuleTypeView {
        match self {
            ModuleType::Type(ty) => ModuleTypeView::Type(ty@),
            ModuleType::Export { name, ty } => ModuleTypeView::Export { name: name@, ty: *ty },
            ModuleType::Import(import) => ModuleTypeView::Import(import@),
        }
    }
}

impl<'a> FromReader<'a> for ModuleType<'a> {
    open spec fn parse(c: Cursor) -> (Cursor, Result<ModuleTypeView>) {
        match c.byte() {
            (d, Err(e)) => (d, Err(e)),
            (d, Ok(b)) => if b == 0x01 {
                match <TypeDef as FromReader>::parse(d) {
                    (d, Err(e)) => (d, Err(e)),
                    (d, Ok(ty)) => (d, Ok(ModuleTypeView::Type(ty))),
                }
            } else if b == 0x02 {
                match <Import as FromReader>::parse(d) {
                    (d, Err(e)) => (d, Err(e)),
                    (d, Ok(import)) => (d, Ok(ModuleTypeView::Import(import))),
                }
            } else if b == 0x07 {
                match d.string() {
                    (d, Err(e)) => (d, Err(e)),
                    (d, Ok(name)) => match <TypeRef as FromReader>::parse(d) {
                        (d, Err(e)) => (d, Err(e)),
                        (d, Ok(ty)) => (d, Ok(ModuleTypeView::Export { name, ty })),
                    },
                }
            } else {
                (d, Err(bad_leading_byte("type definition", c.offset())))
            },
        }
    }

    fn from_reader(reader: &mut BinaryReader<'a>) -> (result: Result<ModuleType<'a>>) {
        let offset = reader.original_position();
        match reader.read_u8()? {
            0x01 => Ok(ModuleType::Type(TypeDef::from_reader(reader)?)),
            0x02 => Ok(ModuleType::Import(Import::from_reader(reader)?)),
            0x07 => {
                let name = reader.read_string()?;
                let ty = TypeRef::from_reader(reader)?;
                Ok(ModuleType::Export { name, ty })
            },
            _ => Err(
                BinaryReaderError::with_word(
                    "invalid leading byte for ",
                    "type definition",
                    "",
                    offset,
                ),
            ),
        }
    }
}

/// An import of a component.
#[derive(Debug, Copy, Clone)]
pub struct ComponentImport<'a> {
    /// The name of the import.
    pub name: &'a str,
    /// The index of its type.
    pub ty: u32,
}

/// What a [`ComponentImport`] holds.
pub struct ComponentImportView {
    /// The name of the import.
    pub name: Seq<char>,
    /// The index of its type.
    pub ty: u32,
}

impl<'a> View for ComponentImport<'a> {
    type V = ComponentImportView;

    open spec fn view(&self) -> ComponentImportView {
        ComponentImportView { name: self.name@, ty: self.ty }
    }
}

impl<'a> FromReader<'a> for ComponentImport<'a> {
    open spec fn parse(c: Cursor) -> (Cursor, Result<ComponentImportView>) {
        match c.string() {
            (c, Err(e)) => (c, Err(e)),
            (c, Ok(name)) => match c.var_u32() {
                (c, Err(e)) => (c, Err(e)),
                (c, Ok(ty)) => (c, Ok(ComponentImportView { name, ty })),
            },
        }
    }

    fn from_reader(reader: &mut BinaryReader<'a>) -> (result: Result<ComponentImport<'a>>) {
        let name = reader.read_string()?;
        let ty = reader.read_var_u32()?;
        Ok(ComponentImport { name, ty })
    }
}

/// A part of the type of a component or of an instance.
#[derive(Debug)]
pub enum ComponentType<'a> {
    /// A type that the others use.
    Type(ComponentTypeDef<'a>),
    /// A type of a component around this one.
    OuterType {
        /// How many components further out.
        count: u32,
        /// The index of the type there.
        index: u32,
    },
    /// An export.
    Export {
        /// The name of the export.
        name: &'a str,
        /// The index of its type.
        ty: u32,
    },
    /// An import, which only components have.
    Import(ComponentImport<'a>),
}

/// A type as a component defines it.
#[derive(Debug)]
pub enum ComponentTypeDef<'a> {
    /// The type of a module.
    Module(Vec<ModuleType<'a>>),
    /// The type of a component.
    Component(Vec<ComponentType<'a>>),
    /// The type of an instance.
    Instance(Vec<ComponentType<'a>>),
    /// The type of a function.
    Function(ComponentFuncType<'a>),
    /// The type of a value.
    Value(InterfaceTypeRef),
    /// An interface type.
    Interface(InterfaceType<'a>),
}

/// What a [`ComponentType`] holds.
pub enum ComponentTypeView {
    /// A type that the others use.
    Type(ComponentTypeDefView),
    /// A type of a component around this one.
    OuterType {
        /// How many components further out.
        count: u32,
        /// The index of the type there.
        index: u32,
    },
    /// An export.
    Export {
        /// The name of the export.
        name: Seq<char>,
        /// The index of its type.
        ty: u32,
    },
    /// An import.
    Import(ComponentImportView),
}

/// What a [`ComponentTypeDef`] holds.
pub enum ComponentTypeDefView {
    /// The type of a module.
    Module(Seq<ModuleTypeView>),
    /// The type of a component.
    Component(Seq<ComponentTypeView>),
    /// The type of an instance.
    Instance(Seq<ComponentTypeView>),
    /// The type of a function.
    Function(ComponentFuncTypeView),
    /// The type of a value.
    Value(InterfaceTypeRef),
    /// An interface type.
    Interface(InterfaceTypeView),
}

impl<'a> ComponentType<'a> {
    /// What the part holds.
    pub open spec fn held(self) -> ComponentTypeView
        decreases self,
    {
        match self {
            ComponentType::Type(ty) => ComponentTypeView::Type(ty.held()),
            ComponentType::OuterType { count, index } => ComponentTypeView::OuterType {
                count,
                index,
            },
            ComponentType::Export { name, ty } => ComponentTypeView::Export { name: name@, ty },
            ComponentType::Import(import) => ComponentTypeView::Import(import@),
        }
    }
}

impl<'a> View for ComponentType<'a> {
    type V = ComponentTypeView;

    open spec fn view(&self) -> ComponentTypeView {
        self.held()
    }
}

impl<'a> ComponentTypeDef<'a> {
    /// What the definition holds.
    pub open spec fn held(self) -> ComponentTypeDefView
        decreases self,
    {
        match self {
            ComponentTypeDef::Module(decls) => ComponentTypeDefView::Module(views(decls@)),
            ComponentTypeDef::Component(decls) => ComponentTypeDefView::Component(
                Seq::new(
                    decls@.len(),
                    |i: int|
                        if 0 <= i < decls@.len() {
                            decls@[i].held()
                        } else {
                            arbitrary()
                        },
                ),
            ),
            ComponentTypeDef::Instance(decls) => ComponentTypeDefView::Instance(
                Seq::new(
                    decls@.len(),
                    |i: int|
                        if 0 <= i < decls@.len() {
                            decls@[i].held()
                        } else {
                            arbitrary()
                        },
                ),
            ),
            ComponentTypeDef::Function(ty) => ComponentTypeDefView::Function(ty@),
            ComponentTypeDef::Value(ty) => ComponentTypeDefView::Value(ty),
            ComponentTypeDef::Interface(ty) => ComponentTypeDefView::Interface(ty@),
        }
    }
}

impl<'a> View for ComponentTypeDef<'a> {
    type V = ComponentTypeDefView;

    open spec fn view(&self) -> ComponentTypeDefView {
        self.held()
    }
}

/// A type definition.
pub open spec fn parse_type_def(c: Cursor) -> (Cursor, Result<ComponentTypeDefView>)
    decreases c.left(), 0int, 0int,
    when c.wf()
{
    match c.byte() {
        (d, Err(e)) => (d, Err(e)),
        (d, Ok(b)) => if b == 0x4f {
            match parse_counted::<ModuleType>(
                d,
                MAX_WASM_MODULE_TYPE_DECLS as int,
                "module type declaration",
            ) {
                (d, Err(e)) => (d, Err(e)),
                (d, Ok(decls)) => (d, Ok(ComponentTypeDefView::Module(decls))),
            }
        } else if b == 0x4e {
            match d.size(MAX_WASM_COMPONENT_TYPE_DECLS as int, "component type declaration") {
                (d, Err(e)) => (d, Err(e)),
                (d, Ok(n)) => if d.wf() && d.follows(c) && d.pos > c.pos {
                    match parse_decls(d, n as nat, Seq::empty(), true) {
                        (d, Err(e)) => (d, Err(e)),
                        (d, Ok(decls)) => (d, Ok(ComponentTypeDefView::Component(decls))),
                    }
                } else {
                    (d, Err(d.end_of_file()))
                },
            }
        } else if b == 0x4d {
            match d.size(MAX_WASM_INSTANCE_TYPE_DECLS as int, "instance type declaration") {
                (d, Err(e)) => (d, Err(e)),
                (d, Ok(n)) => if d.wf() && d.follows(c) && d.pos > c.pos {
                    match parse_decls(d, n as nat, Seq::empty(), false) {
                        (d, Err(e)) => (d, Err(e)),
                        (d, Ok(decls)) => (d, Ok(ComponentTypeDefView::Instance(decls))),
                    }
                } else {
                    (d, Err(d.end_of_file()))
                },
            }
        } else if b == 0x4c {
            match <ComponentFuncType as FromReader>::parse(d) {
                (d, Err(e)) => (d, Err(e)),
                (d, Ok(ty)) => (d, Ok(ComponentTypeDefView::Function(ty))),
            }
        } else if b == 0x4b {
            match <InterfaceTypeRef as FromReader>::parse(d) {
                (d, Err(e)) => (d, Err(e)),
                (d, Ok(ty)) => (d, Ok(ComponentTypeDefView::Value(ty))),
            }
        } else {
            match parse_interface(d, b, c.offset()) {
                (d, Err(e)) => (d, Err(e)),
                (d, Ok(ty)) => (d, Ok(ComponentTypeDefView::Interface(ty))),
            }
        },
    }
}

/// `n` parts of the type of a component or, if `imports` is not set, of an
/// instance, put behind those of `acc`.
pub open spec fn parse_decls(c: Cursor, n: nat, acc: Seq<ComponentTypeView>, imports: bool) -> (
    Cursor,
    Result<Seq<ComponentTypeView>>,
)
    decreases c.left(), 2int, n,
    when c.wf()
{
    if n == 0 {
        (c, Ok(acc))
    } else {
        match parse_decl(c, imports) {
            (d, Err(e)) => (d, Err(e)),
            (d, Ok(decl)) => if d.wf() && d.follows(c) {
                parse_decls(d, (n - 1) as nat, acc.push(decl), imports)
            } else {
                (d, Err(d.end_of_file()))
            },
        }
    }
}

/// A part of the type of a component or, if `imports` is not set, of an instance.
pub open spec fn parse_decl(c: Cursor, imports: bool) -> (Cursor, Result<ComponentTypeView>)
    decreases c.left(), 1int, 0int,
    when c.wf()
{
    match c.byte() {
        (d, Err(e)) => (d, Err(e)),
        (d, Ok(b)) => if b == 0x01 {
            match parse_type_def(d) {
                (d, Err(e)) => (d, Err(e)),
                (d, Ok(ty)) => (d, Ok(ComponentTypeView::Type(ty))),
            }
        } else if b == 0x02 && imports {
            match <ComponentImport as FromReader>::parse(d) {
                (d, Err(e)) => (d, Err(e)),
                (d, Ok(import)) => (d, Ok(ComponentTypeView::Import(import))),
            }
        } else if b == 0x07 {
            match <ComponentImport as FromReader>::parse(d) {
                (d, Err(e)) => (d, Err(e)),
                (d, Ok(export)) => (
                    d,
                    Ok(ComponentTypeView::Export { name: export.name, ty: export.ty }),
                ),
            }
        } else if b == 0x09 {
            match parse_outer_type(d) {
                (d, Err(e)) => (d, Err(e)),
                (d, Ok((count, index))) => (d, Ok(ComponentTypeView::OuterType { count, index })),
            }
        } else {
            (d, Err(bad_leading_byte("component or instance type", c.offset())))
        },
    }
}

/// A reference to a type of a component further out.
pub open spec fn parse_outer_type(c: Cursor) -> (Cursor, Result<(u32, u32)>) {
    match c.byte() {
        (d, Err(e)) => (d, Err(e)),
        (d, Ok(form)) => match d.byte() {
            (d, Err(e)) => (d, Err(e)),
            (d, Ok(kind)) => if form != 0x02 || kind != 0x05 {
                (d, Err(error_at("only outer type aliases are allowed in types", c.offset())))
            } else {
                match d.var_u32() {
                    (d, Err(e)) => (d, Err(e)),
                    (d, Ok(count)) => match d.var_u32() {
                        (d, Err(e)) => (d, Err(e)),
                        (d, Ok(index)) => (d, Ok((count, index))),
                    },
                }
            },
        },
    }
}

fn read_outer_type(reader: &mut BinaryReader<'_>) -> (result: Result<(u32, u32)>)
    requires
        old(reader).wf(),
    ensures
        final(reader).wf(),
        final(reader)@.follows(old(reader)@),
        (final(reader)@, result) == parse_outer_type(old(reader)@),
{
    let offset = reader.original_position();
    let form = reader.read_u8()?;
    let kind = reader.read_u8()?;
    if form != 0x02 || kind != 0x05 {
        return Err(BinaryReaderError::new("only outer type aliases are allowed in types", offset));
    }
    let count = reader.read_var_u32()?;
    let index = reader.read_var_u32()?;
    Ok((count, index))
}

fn component_def<'a>(decls: Vec<ComponentType<'a>>) -> (def: ComponentTypeDef<'a>)
    ensures
        def@ == ComponentTypeDefView::Component(views(decls@)),
{
    let def = ComponentTypeDef::Component(decls);
    assert(def@->Component_0 =~= views(decls@));
    def
}

fn instance_def<'a>(decls: Vec<ComponentType<'a>>) -> (def: ComponentTypeDef<'a>)
    ensures
        def@ == ComponentTypeDefView::Instance(views(decls@)),
{
    let def = ComponentTypeDef::Instance(decls);
    assert(def@->Instance_0 =~= views(decls@));
    def
}

fn read_type_def<'a>(reader: &mut BinaryReader<'a>) -> (result: Result<ComponentTypeDef<'a>>)
    requires
        old(reader).wf(),
    ensures
        final(reader).wf(),
        final(reader)@.follows(old(reader)@),
        (final(reader)@, viewed(result)) == parse_type_def(old(reader)@),
    decreases old(reader)@.left(), 0int,
{
    let offset = reader.original_position();
    let byte = reader.read_u8()?;
    match byte {
        0x4f => Ok(
            ComponentTypeDef::Module(
                read_counted::<ModuleType>(
                    reader,
                    MAX_WASM_MODULE_TYPE_DECLS,
                    "module type declaration",
                )?,
            ),
        ),
        0x4e => {
            let n = reader.read_size(MAX_WASM_COMPONENT_TYPE_DECLS, "component type declaration")?;
            let decls = read_decls(reader, n, true)?;
            Ok(component_def(decls))
        },
        0x4d => {
            let n = reader.read_size(MAX_WASM_INSTANCE_TYPE_DECLS, "instance type declaration")?;
            let decls = read_decls(reader, n, false)?;
            Ok(instance_def(decls))
        },
        0x4c => Ok(ComponentTypeDef::Function(ComponentFuncType::from_reader(reader)?)),
        0x4b => Ok(ComponentTypeDef::Value(InterfaceTypeRef::from_reader(reader)?)),
        _ => Ok(ComponentTypeDef::Interface(read_interface(reader, byte, offset)?)),
    }
}

fn read_decls<'a>(reader: &mut BinaryReader<'a>, n: usize, imports: bool) -> (result: Result<
    Vec<ComponentType<'a>>,
>)
    requires
        old(reader).wf(),
    ensures
        final(reader).wf(),
        final(reader)@.follows(old(reader)@),
        match (result, parse_decls(old(reader)@, n as nat, Seq::empty(), imports)) {
            (Ok(list), (c, Ok(s))) => final(reader)@ == c && views(list@) == s,
            (Err(e), (c, Err(f))) => final(reader)@ == c && e == f,
            _ => false,
        },
    decreases old(reader)@.left(), 2int,
{
    let mut list: Vec<ComponentType<'a>> = Vec::new();
    let mut i: usize = 0;
    let ghost start = reader@;
    assert(views(list@) =~= Seq::<ComponentTypeView>::empty());
    while i < n
        invariant
            i <= n,
            reader.wf(),
            start == old(reader)@,
            reader@.follows(start),
            parse_decls(start, n as nat, Seq::empty(), imports) == parse_decls(
                reader@,
                (n - i) as nat,
                views(list@),
                imports,
            ),
        decreases n - i,
    {
        let ghost before = views(list@);
        let decl = read_decl(reader, imports)?;
        list.push(decl);
        assert(views(list@) =~= before.push(decl@));
        i = i + 1;
    }
    Ok(list)
}

fn read_decl<'a>(reader: &mut BinaryReader<'a>, imports: bool) -> (result: Result<
    ComponentType<'a>,
>)
    requires
        old(reader).wf(),
    ensures
        final(reader).wf(),
        final(reader)@.follows(old(reader)@),
        (final(reader)@, viewed(result)) == parse_decl(old(reader)@, imports),
    decreases old(reader)@.left(), 1int,
{
    let offset = reader.original_position();
    let byte = reader.read_u8()?;
    if byte == 0x01 {
        Ok(ComponentType::Type(read_type_def(reader)?))
    } else if byte == 0x02 && imports {
        Ok(ComponentType::Import(ComponentImport::from_reader(reader)?))
    } else if byte == 0x07 {
        let export = ComponentImport::from_reader(reader)?;
        Ok(ComponentType::Export { name: export.name, ty: export.ty })
    } else if byte == 0x09 {
        let (count, index) = read_outer_type(reader)?;
        Ok(ComponentType::OuterType { count, index })
    } else {
        Err(
            BinaryReaderError::with_word(
                "invalid leading byte for ",
                "component or instance type",
                "",
                offset,
            ),
        )
    }
}

impl<'a> FromReader<'a> for ComponentTypeDef<'a> {
    open spec fn parse(c: Cursor) -> (Cursor, Result<ComponentTypeDefView>) {
        parse_type_def(c)
    }

    fn from_reader(reader: &mut BinaryReader<'a>) -> (result: Result<ComponentTypeDef<'a>>) {
        read_type_def(reader)
    }
}

} // verus!
