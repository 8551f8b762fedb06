//! The functions, instances, aliases and the start of a component.

use super::exports::{ComponentExport, ComponentExportView};
use super::types::{parse_counted, read_counted};
use crate::error::{viewed, BinaryReaderError, Result};
use crate::limits::{
    MAX_WASM_CANONICAL_OPTIONS, MAX_WASM_INSTANTIATION_ARGS, MAX_WASM_INSTANTIATION_EXPORTS,
    MAX_WASM_START_ARGS,
};
use crate::reader::binary_reader::{BinaryReader, Cursor, Range};
use crate::reader::types::{bad_leading_byte, views, Export, ExportView, FromReader};
use vstd::prelude::*;

verus! {

/// What is given to a component that is instantiated.
#[derive(Debug, Copy, Clone, PartialEq, Eq, Structural)]
pub enum ComponentArgKind {
    /// The module with an index.
    Module(u32),
    /// The component with an index.
    Component(u32),
    /// The instance with an index.
    Instance(u32),
    /// The function with an index.
    Function(u32),
    /// The value with an index.
    Value(u32),
    /// The type with an index.
    Type(u32),
}

impl View for ComponentArgKind {
    type V = ComponentArgKind;

    open spec fn view(&self) -> ComponentArgKind {
        *self
    }
}

impl ComponentArgKind {
    /// What a byte and an index stand for.
    pub open spec fn of_byte(byte: u8, index: u32) -> Option<ComponentArgKind> {
        if byte == 0x00 {
            Some(ComponentArgKind::Module(index))
        } else if byte == 0x01 {
            Some(ComponentArgKind::Component(index))
        } else if byte == 0x02 {
            Some(ComponentArgKind::Instance(index))
        } else if byte == 0x03 {
            Some(ComponentArgKind::Function(index))
        } else if byte == 0x04 {
            Some(ComponentArgKind::Value(index))
        } else if byte == 0x05 {
            Some(ComponentArgKind::Type(index))
        } else {
            None
        }
    }
}

impl<'a> FromReader<'a> for ComponentArgKind {
    open spec fn parse(c: Cursor) -> (Cursor, Result<ComponentArgKind>) {
        match c.byte() {
            (d, Err(e)) => (d, Err(e)),
            (d, Ok(b)) => if ComponentArgKind::of_byte(b, 0) is None {
                (d, Err(bad_leading_byte("component argument kind", c.offset())))
            } else {
                match d.var_u32() {
                    (d, Err(e)) => (d, Err(e)),
                    (d, Ok(index)) => (d, Ok(ComponentArgKind::of_byte(b, index)->0)),
                }
            },
        }
    }

    fn from_reader(reader: &mut BinaryReader<'a>) -> (result: Result<ComponentArgKind>) {
        let offset = reader.original_position();
        match reader.read_u8()? {
            0x00 => Ok(ComponentArgKind::Module(reader.read_var_u32()?)),
            0x01 => Ok(ComponentArgKind::Component(reader.read_var_u32()?)),
            0x02 => Ok(ComponentArgKind::Instance(reader.read_var_u32()?)),
            0x03 => Ok(ComponentArgKind::Function(reader.read_var_u32()?)),
            0x04 => Ok(ComponentArgKind::Value(reader.read_var_u32()?)),
            0x05 => Ok(ComponentArgKind::Type(reader.read_var_u32()?)),
            _ => Err(
                BinaryReaderError::with_word(
                    "invalid leading byte for ",
                    "component argument kind",
                    "",
                    offset,
                ),
            ),
        }
    }
}

/// An argument for a module that is instantiated: an instance under a name.
#[derive(Debug, Copy, Clone)]
pub struct ModuleArg<'a> {
    /// The name of the argument.
    pub name: &'a str,
    /// The index of the instance.
    pub instance: u32,
}

/// What a [`ModuleArg`] holds.
pub struct ModuleArgView {
    /// The name of the argument.
    pub name: Seq<char>,
    /// The index of the instance.
    pub instance: u32,
}

impl<'a> View for ModuleArg<'a> {
    type V = ModuleArgView;

    open spec fn view(&self) -> ModuleArgView {
        ModuleArgView { name: self.name@, instance: self.instance }
    }
}

impl<'a> FromReader<'a> for ModuleArg<'a> {
    open spec fn parse(c: Cursor) -> (Cursor, Result<ModuleArgView>) {
        match c.string() {
            (c, Err(e)) => (c, Err(e)),
            (c, Ok(name)) => match c.byte() {
                (d, Err(e)) => (d, Err(e)),
                (d, Ok(b)) => if b != 0x02 {
                    (d, Err(bad_leading_byte("instantiation arg kind", c.offset())))
                } else {
                    match d.var_u32() {
                        (d, Err(e)) => (d, Err(e)),
                        (d, Ok(instance)) => (d, Ok(ModuleArgView { name, instance })),
                    }
                },
            },
        }
    }

    fn from_reader(reader: &mut BinaryReader<'a>) -> (result: Result<ModuleArg<'a>>) {
        let name = reader.read_string()?;
        let offset = reader.original_position();
        let byte = reader.read_u8()?;
        if byte != 0x02 {
            return Err(
                BinaryReaderError::with_word(
                    "invalid leading byte for ",
                    "instantiation arg kind",
                    "",
                    offset,
                ),
            );
        }
        let instance = reader.read_var_u32()?;
        Ok(ModuleArg { name, instance })
    }
}

/// An instance that is made.
#[derive(Debug)]
pub enum Instance<'a> {
    /// From a module.
    Module {
        /// The index of the module.
        index: u32,
        /// The arguments.
        args: Vec<ModuleArg<'a>>,
    },
    /// From a component.
    Component {
        /// The index of the component.
        index: u32,
        /// The arguments, which are named as exports are.
        args: Vec<ComponentExport<'a>>,
    },
    /// An instance of a module with these exports.
    ModuleFromExports(Vec<Export<'a>>),
    /// An instance of a component with these exports.
    ComponentFromExports(Vec<ComponentExport<'a>>),
}

/// What an [`Instance`] holds.
pub enum InstanceView {
    /// From a module.
    Module {
        /// The index of the module.
        index: u32,
        /// The arguments.
        args: Seq<ModuleArgView>,
    },
    /// From a component.
    Component {
        /// The index of the component.
        index: u32,
        /// The arguments.
        args: Seq<ComponentExportView>,
    },
    /// An instance of a module with these exports.
    ModuleFromExports(Seq<ExportView>),
    /// An instance of a component with these exports.
    ComponentFromExports(Seq<ComponentExportView>),
}

impl<'a> View for Instance<'a> {
    type V = InstanceView;

    open spec fn view(&self) -> InstanceView {
        match self {
            Instance::Module { index, args } => InstanceView::Module {
                index: *index,
                args: views(args@),
            },
            Instance::Component { index, args } => InstanceView::Component {
                index: *index,
                args: views(args@),
            },
            Instance::ModuleFromExports(exports) => InstanceView::ModuleFromExports(
                views(exports@),
            ),
            Instance::ComponentFromExports(exports) => InstanceView::ComponentFromExports(
                views(exports@),
            ),
        }
    }
}

impl<'a> FromReader<'a> for Instance<'a> {
    open spec fn parse(c: Cursor) -> (Cursor, Result<InstanceView>) {
        match c.byte() {
            (d, Err(e)) => (d, Err(e)),
            (d, Ok(b)) => if b == 0x00 {
                match d.byte() {
                    (f, Err(e)) => (f, Err(e)),
                    (f, Ok(kind)) => if kind > 0x01 {
                        (f, Err(bad_leading_byte("instance", d.offset())))
                    } else {
                        match f.var_u32() {
                            (f, Err(e)) => (f, Err(e)),
                            (f, Ok(index)) => if kind == 0x00 {
                                match parse_counted::<ModuleArg>(
                                    f,
                                    MAX_WASM_INSTANTIATION_ARGS as int,
                                    "module instantiation arguments",
                                ) {
                                    (f, Err(e)) => (f, Err(e)),
                                    (f, Ok(args)) => (f, Ok(InstanceView::Module { index, args })),
                                }
                            } else {
                                match parse_counted::<ComponentExport>(
                                    f,
                                    MAX_WASM_INSTANTIATION_ARGS as int,
                                    "component instantiation arguments",
                                ) {
                                    (f, Err(e)) => (f, Err(e)),
                                    (f, Ok(args)) => (
                                        f,
                                        Ok(InstanceView::Component { index, args }),
                                    ),
                                }
                            },
                        }
                    },
                }
            } else if b == 0x01 {
                match parse_counted::<ComponentExport>(
                    d,
                    MAX_WASM_INSTANTIATION_EXPORTS as int,
                    "component instantiation exports",
                ) {
                    (d, Err(e)) => (d, Err(e)),
                    (d, Ok(exports)) => (d, Ok(InstanceView::ComponentFromExports(exports))),
                }
            } else if b == 0x02 {
                match parse_counted::<Export>(
                    d,
                    MAX_WASM_INSTANTIATION_EXPORTS as int,
                    "module instantiation exports",
                ) {
                    (d, Err(e)) => (d, Err(e)),
                    (d, Ok(exports)) => (d, Ok(InstanceView::ModuleFromExports(exports))),
                }
            } else {
                (d, Err(bad_leading_byte("instance", c.offset())))
            },
        }
    }

    fn from_reader(reader: &mut BinaryReader<'a>) -> (result: Result<Instance<'a>>) {
        let offset = reader.original_position();
        match reader.read_u8()? {
            0x00 => {
                let offset = reader.original_position();
                let kind = reader.read_u8()?;
                if kind > 0x01 {
                    return Err(
                        BinaryReaderError::with_word(
                            "invalid leading byte for ",
                            "instance",
                            "",
                            offset,
                        ),
                    );
                }
                let index = reader.read_var_u32()?;
                if kind == 0x00 {
                    let args = read_counted::<ModuleArg>(
                        reader,
                        MAX_WASM_INSTANTIATION_ARGS,
                        "module instantiation arguments",
                    )?;
                    Ok(Instance::Module { index, args })
                } else {
                    let args = read_counted::<ComponentExport>(
                        reader,
                        MAX_WASM_INSTANTIATION_ARGS,
                        "component instantiation arguments",
                    )?;
                    Ok(Instance::Component { index, args })
                }
            },
            0x01 => {
                let exports = read_counted::<ComponentExport>(
                    reader,
                    MAX_WASM_INSTANTIATION_EXPORTS,
                    "component instantiation exports",
                )?;
                Ok(Instance::ComponentFromExports(exports))
            },
            0x02 => {
                let exports = read_counted::<Export>(
                    reader,
                    MAX_WASM_INSTANTIATION_EXPORTS,
                    "module instantiation exports",
                )?;
                Ok(Instance::ModuleFromExports(exports))
            },
            _ => Err(
                BinaryReaderError::with_word("invalid leading byte for ", "instance", "", offset),
            ),
        }
    }
}

/// What kind of export of an instance an alias stands for.
#[derive(Debug, Copy, Clone, PartialEq, Eq, Structural)]
pub enum AliasKind {
    /// A module.
    Module,
    /// A component.
    Component,
    /// An instance.
    Instance,
    /// A component function.
    ComponentFunc,
    /// A value.
    Value,
    /// A core function.
    Func,
    /// A table.
    Table,
    /// A memory.
    Memory,
    /// A global.
    Global,
    /// A tag.
    Tag,
}

impl AliasKind {
    /// The kind that a byte stands for; `component` says whether it is a kind
    /// of export of a component or of a module.
    pub open spec fn of_byte(byte: u8, component: bool) -> Option<AliasKind> {
        if component {
            if byte == 0x00 {
                Some(AliasKind::Module)
            } else if byte == 0x01 {
                Some(AliasKind::Component)
            } else if byte == 0x02 {
                Some(AliasKind::Instance)
            } else if byte == 0x03 {
                Some(AliasKind::ComponentFunc)
            } else if byte == 0x04 {
                Some(AliasKind::Value)
            } else {
                None
            }
        } else {
            if byte == 0x00 {
                Some(AliasKind::Func)
            } else if byte == 0x01 {
                Some(AliasKind::Table)
            } else if byte == 0x02 {
                Some(AliasKind::Memory)
            } else if byte == 0x03 {
                Some(AliasKind::Global)
            } else if byte == 0x04 {
                Some(AliasKind::Tag)
            } else {
                None
            }
        }
    }

    /// The kind that a byte stands for.
    pub fn from_byte(byte: u8, component: bool) -> (kind: Option<AliasKind>)
        ensures
            kind == Self::of_byte(byte, component),
    {
        match (component, byte) {
            (true, 0x00) => Some(AliasKind::Module),
            (true, 0x01) => Some(AliasKind::Component),
            (true, 0x02) => Some(AliasKind::Instance),
            (true, 0x03) => Some(AliasKind::ComponentFunc),
            (true, 0x04) => Some(AliasKind::Value),
            (false, 0x00) => Some(AliasKind::Func),
            (false, 0x01) => Some(AliasKind::Table),
            (false, 0x02) => Some(AliasKind::Memory),
            (false, 0x03) => Some(AliasKind::Global),
            (false, 0x04) => Some(AliasKind::Tag),
            _ => None,
        }
    }
}

/// Another name for something.
#[derive(Debug, Copy, Clone)]
pub enum Alias<'a> {
    /// For an export of an instance.
    InstanceExport {
        /// What kind of export.
        kind: AliasKind,
        /// The index of the instance.
        instance: u32,
        /// The name of the export.
        name: &'a str,
    },
    /// For a module of a component further out.
    OuterModule {
        /// How many components further out.
        count: u32,
        /// The index of the module there.
        index: u32,
    },
    /// For a component of a component further out.
    OuterComponent {
        /// How many components further out.
        count: u32,
        /// The index of the component there.
        index: u32,
    },
    /// For a type of a component further out.
    OuterType {
        /// How many components further out.
        count: u32,
        /// The index of the type there.
        index: u32,
    },
}

/// What an [`Alias`] holds.
pub enum AliasView {
    /// For an export of an instance.
    InstanceExport {
        /// What kind of export.
        kind: AliasKind,
        /// The index of the instance.
        instance: u32,
        /// The name of the export.
        name: Seq<char>,
    },
    /// For a module of a component further out.
    OuterModule {
        /// How many components further out.
        count: u32,
        /// The index of the module there.
        index: u32,
    },
    /// For a component of a component further out.
    OuterComponent {
        /// How many components further out.
        count: u32,
        /// The index of the component there.
        index: u32,
    },
    /// For a type of a component further out.
    OuterType {
        /// How many components further out.
        count: u32,
        /// The index of the type there.
        index: u32,
    },
}

impl<'a> View for Alias<'a> {
    type V = AliasView;

    open spec fn view(&self) -> AliasView {
        match self {
            Alias::InstanceExport { kind, instance, name } => AliasView::InstanceExport {
                kind: *kind,
                instance: *instance,
                name: name@,
            },
            Alias::OuterModule { count, index } => AliasView::OuterModule {
                count: *count,
                index: *index,
            },
            Alias::OuterComponent { count, index } => AliasView::OuterComponent {
                count: *count,
                index: *index,
            },
            Alias::OuterType { count, index } => AliasView::OuterType {
                count: *count,
                index: *index,
            },
        }
    }
}

/// An alias for an export of an instance.
pub open spec fn parse_export_alias(c: Cursor, component: bool) -> (Cursor, Result<AliasView>) {
    match c.byte() {
        (d, Err(e)) => (d, Err(e)),
        (d, Ok(b)) => match AliasKind::of_byte(b, component) {
            None => (d, Err(bad_leading_byte("alias kind", c.offset()))),
            Some(kind) => match d.var_u32() {
                (d, Err(e)) => (d, Err(e)),
                (d, Ok(instance)) => match d.string() {
                    (d, Err(e)) => (d, Err(e)),
                    (d, Ok(name)) => (d, Ok(AliasView::InstanceExport { kind, instance, name })),
                },
            },
        },
    }
}

/// An alias for something of a component further out.
pub open spec fn parse_outer_alias(c: Cursor) -> (Cursor, Result<AliasView>) {
    match c.byte() {
        (d, Err(e)) => (d, Err(e)),
        (d, Ok(b)) => if b != 0x00 && b != 0x01 && b != 0x05 {
            (d, Err(bad_leading_byte("outer alias kind", c.offset())))
        } else {
            match d.var_u32() {
                (d, Err(e)) => (d, Err(e)),
                (d, Ok(count)) => match d.var_u32() {
                    (d, Err(e)) => (d, Err(e)),
                    (d, Ok(index)) => (
                        d,
                        Ok(
                            if b == 0x00 {
                                AliasView::OuterModule { count, index }
                            } else if b == 0x01 {
                                AliasView::OuterComponent { count, index }
                            } else {
                                AliasView::OuterType { count, index }
                            },
                        ),
                    ),
                },
            }
        },
    }
}

impl<'a> FromReader<'a> for Alias<'a> {
    open spec fn parse(c: Cursor) -> (Cursor, Result<AliasView>) {
        match c.byte() {
            (d, Err(e)) => (d, Err(e)),
            (d, Ok(b)) => if b == 0x00 {
                parse_export_alias(d, true)
            } else if b == 0x01 {
                parse_export_alias(d, false)
            } else if b == 0x02 {
                parse_outer_alias(d)
            } else {
                (d, Err(bad_leading_byte("alias", c.offset())))
            },
        }
    }

    fn from_reader(reader: &mut BinaryReader<'a>) -> (result: Result<Alias<'a>>) {
        let offset = reader.original_position();
        let form = reader.read_u8()?;
        if form > 0x02 {
            return Err(
                BinaryReaderError::with_word("invalid leading byte for ", "alias", "", offset),
            );
        }
        let offset = reader.original_position();
        let byte = reader.read_u8()?;
        if form < 0x02 {
            let kind = match AliasKind::from_byte(byte, form == 0x00) {
                Some(kind) => kind,
                None => {
                    return Err(
                        BinaryReaderError::with_word(
                            "invalid leading byte for ",
                            "alias kind",
                            "",
                            offset,
                        ),
                    );
                },
            };
            let instance = reader.read_var_u32()?;
            let name = reader.read_string()?;
            return Ok(Alias::InstanceExport { kind, instance, name });
        }
        if byte != 0x00 && byte != 0x01 && byte != 0x05 {
            return Err(
                BinaryReaderError::with_word(
                    "invalid leading byte for ",
                    "outer alias kind",
                    "",
                    offset,
                ),
            );
        }
        let count = reader.read_var_u32()?;
        let index = reader.read_var_u32()?;
        if byte == 0x00 {
            Ok(Alias::OuterModule { count, index })
        } else if byte == 0x01 {
            Ok(Alias::OuterComponent { count, index })
        } else {
            Ok(Alias::OuterType { count, index })
        }
    }
}

/// An option of a function that is lifted or lowered.
#[derive(Debug, Copy, Clone, PartialEq, Eq, Structural)]
pub enum CanonicalOption {
    /// Strings are in UTF-8.
    UTF8,
    /// Strings are in UTF-16.
    UTF16,
    /// Strings are in UTF-16 or, where that is shorter, in Latin-1.
    CompactUTF16,
    /// The instance with this index provides memory.
    Into(u32),
}

impl View for CanonicalOption {
    type V = CanonicalOption;

    open spec fn view(&self) -> CanonicalOption {
        *self
    }
}

impl<'a> FromReader<'a> for CanonicalOption {
    open spec fn parse(c: Cursor) -> (Cursor, Result<CanonicalOption>) {
        match c.byte() {
            (d, Err(e)) => (d, Err(e)),
            (d, Ok(b)) => if b == 0x00 {
                (d, Ok(CanonicalOption::UTF8))
            } else if b == 0x01 {
                (d, Ok(CanonicalOption::UTF16))
            } else if b == 0x02 {
                (d, Ok(CanonicalOption::CompactUTF16))
            } else if b == 0x03 {
                match d.var_u32() {
                    (d, Err(e)) => (d, Err(e)),
                    (d, Ok(index)) => (d, Ok(CanonicalOption::Into(index))),
                }
            } else {
                (d, Err(bad_leading_byte("canonical option", c.offset())))
            },
        }
    }

    fn from_reader(reader: &mut BinaryReader<'a>) -> (result: Result<CanonicalOption>) {
        let offset = reader.original_position();
        match reader.read_u8()? {
            0x00 => Ok(CanonicalOption::UTF8),
            0x01 => Ok(CanonicalOption::UTF16),
            0x02 => Ok(CanonicalOption::CompactUTF16),
            0x03 => Ok(CanonicalOption::Into(reader.read_var_u32()?)),
            _ => Err(
                BinaryReaderError::with_word(
                    "invalid leading byte for ",
                    "canonical option",
                    "",
                    offset,
                ),
            ),
        }
    }
}

/// A function that a component defines.
#[derive(Debug)]
pub enum ComponentFunction {
    /// A core function made into a component function.
    Lift {
        /// The index of the type of the component function.
        type_index: u32,
        /// The index of the core function.
        func_index: u32,
        /// The options.
        options: Vec<CanonicalOption>,
    },
    /// A component function made into a core function.
    Lower {
        /// The index of the component function.
        func_index: u32,
        /// The options.
        options: Vec<CanonicalOption>,
    },
}

/// What a [`ComponentFunction`] holds.
pub enum ComponentFunctionView {
    /// A core function made into a component function.
    Lift {
        /// The index of the type of the component function.
        type_index: u32,
        /// The index of the core function.
        func_index: u32,
        /// The options.
        options: Seq<CanonicalOption>,
    },
    /// A component function made into a core function.
    Lower {
        /// The index of the component function.
        func_index: u32,
        /// The options.
        options: Seq<CanonicalOption>,
    },
}

impl View for ComponentFunction {
    type V = ComponentFunctionView;

    open spec fn view(&self) -> ComponentFunctionView {
        match self {
            ComponentFunction::Lift { type_index, func_index, options } =>
            ComponentFunctionView::Lift {
                type_index: *type_index,
                func_index: *func_index,
                options: options@,
            },
            ComponentFunction::Lower { func_index, options } => ComponentFunctionView::Lower {
                func_index: *func_index,
                options: options@,
            },
        }
    }
}

/// The options of a function.
pub open spec fn parse_options(c: Cursor) -> (Cursor, Result<Seq<CanonicalOption>>) {
    parse_counted::<CanonicalOption>(c, MAX_WASM_CANONICAL_OPTIONS as int, "canonical options")
}

fn read_options(reader: &mut BinaryReader<'_>) -> (result: Result<Vec<CanonicalOption>>)
    requires
        old(reader).wf(),
    ensures
        final(reader).wf(),
        final(reader)@.follows(old(reader)@),
        (final(reader)@, viewed(result)) == parse_options(old(reader)@),
{
    let options = read_counted::<CanonicalOption>(
        reader,
        MAX_WASM_CANONICAL_OPTIONS,
        "canonical options",
    )?;
    assert(views(options@) =~= options@);
    Ok(options)
}

impl<'a> FromReader<'a> for ComponentFunction {
    open spec fn parse(c: Cursor) -> (Cursor, Result<ComponentFunctionView>) {
        match c.byte() {
            (d, Err(e)) => (d, Err(e)),
            (d, Ok(b)) => if b == 0x00 {
                match d.var_u32() {
                    (d, Err(e)) => (d, Err(e)),
                    (d, Ok(type_index)) => match d.var_u32() {
                        (d, Err(e)) => (d, Err(e)),
                        (d, Ok(func_index)) => match parse_options(d) {
                            (d, Err(e)) => (d, Err(e)),
                            (d, Ok(options)) => (
                                d,
                                Ok(ComponentFunctionView::Lift { type_index, func_index, options }),
                            ),
                        },
                    },
                }
            } else if b == 0x01 {
                match d.var_u32() {
                    (d, Err(e)) => (d, Err(e)),
                    (d, Ok(func_index)) => match parse_options(d) {
                        (d, Err(e)) => (d, Err(e)),
                        (d, Ok(options)) => (
                            d,
                            Ok(ComponentFunctionView::Lower { func_index, options }),
                        ),
                    },
                }
            } else {
                (d, Err(bad_leading_byte("component function", c.offset())))
            },
        }
    }

    fn from_reader(reader: &mut BinaryReader<'a>) -> (result: Result<ComponentFunction>) {
        let offset = reader.original_position();
        match reader.read_u8()? {
            0x00 => {
                let type_index = reader.read_var_u32()?;
                let func_index = reader.read_var_u32()?;
                let options = read_options(reader)?;
                Ok(ComponentFunction::Lift { type_index, func_index, options })
            },
            0x01 => {
                let func_index = reader.read_var_u32()?;
                let options = read_options(reader)?;
                Ok(ComponentFunction::Lower { func_index, options })
            },
            _ => Err(
                BinaryReaderError::with_word(
                    "invalid leading byte for ",
                    "component function",
                    "",
                    offset,
                ),
            ),
        }
    }
}

/// The function that is called when a component is instantiated.
#[derive(Debug)]
pub struct ComponentStartFunction {
    /// The index of the function.
    pub func_index: u32,
    /// The indices of the values that it is given.
    pub arguments: Vec<u32>,
}

/// What a [`ComponentStartFunction`] holds.
pub struct ComponentStartFunctionView {
    /// The index of the function.
    pub func_index: u32,
    /// The indices of the values that it is given.
    pub arguments: Seq<u32>,
}

impl View for ComponentStartFunction {
    type V = ComponentStartFunctionView;

    open spec fn view(&self) -> ComponentStartFunctionView {
        ComponentStartFunctionView { func_index: self.func_index, arguments: self.arguments@ }
    }
}

impl<'a> FromReader<'a> for ComponentStartFunction {
    open spec fn parse(c: Cursor) -> (Cursor, Result<ComponentStartFunctionView>) {
        match c.var_u32() {
            (c, Err(e)) => (c, Err(e)),
            (c, Ok(func_index)) => match parse_counted::<u32>(
                c,
                MAX_WASM_START_ARGS as int,
                "start function arguments",
            ) {
                (c, Err(e)) => (c, Err(e)),
                (c, Ok(arguments)) => (c, Ok(ComponentStartFunctionView { func_index, arguments })),
            },
        }
    }

    fn from_reader(reader: &mut BinaryReader<'a>) -> (result: Result<ComponentStartFunction>) {
        let func_index = reader.read_var_u32()?;
        let arguments = read_counted::<u32>(
            reader,
            MAX_WASM_START_ARGS,
            "start function arguments",
        )?;
        assert(views(arguments@) =~= arguments@);
        Ok(ComponentStartFunction { func_index, arguments })
    }
}

/// A reader of the start section of a component, which holds one start function.
#[derive(Clone, Copy)]
pub struct ComponentStartSectionReader<'a> {
    reader: BinaryReader<'a>,
}

impl<'a> View for ComponentStartSectionReader<'a> {
    type V = Cursor;

    closed spec fn view(&self) -> Cursor {
        self.reader@
    }
}

impl<'a> ComponentStartSectionReader<'a> {
    /// Constructs a reader of the section that `data` holds, which starts at
    /// `offset` in the whole binary.
    pub fn new(data: &'a [u8], offset: usize) -> (section: Self)
        requires
            offset + data@.len() <= usize::MAX,
        ensures
            section@ == Cursor::start(data@, offset as int),
            section@.wf(),
    {
        ComponentStartSectionReader { reader: BinaryReader::new_with_offset(data, offset) }
    }

    /// Reads the start function.
    pub fn read(&mut self) -> (result: Result<ComponentStartFunction>)
        requires
            old(self)@.wf(),
        ensures
            final(self)@.wf(),
            final(self)@.follows(old(self)@),
            (final(self)@, viewed(result)) == <ComponentStartFunction as FromReader>::parse(
                old(self)@,
            ),
    {
        ComponentStartFunction::from_reader(&mut self.reader)
    }

    /// The offsets of the section in the whole binary.
    pub fn range(&self) -> (range: Range)
        requires
            self@.wf(),
        ensures
            range.start == self@.base,
            range.end == self@.base + self@.bytes.len(),
    {
        self.reader.range()
    }
}

} // verus!
