//! Which bytes stand for the items of sections.

use super::binary_reader::Cursor;
use super::component::exports::{ComponentExport, ComponentExportSectionReader};
use super::component::items::{
    Alias, AliasKind, AliasView, CanonicalOption, ComponentArgKind, ComponentFunction,
    ComponentFunctionView, ComponentStartFunction, Instance, InstanceView, ModuleArg,
};
use super::component::types::{
    parse_counted, parse_interface, parse_type_def, ComponentImport, ComponentParam,
    ComponentTypeDefView, InterfaceTypeRef, InterfaceTypeView, ModuleType, ModuleTypeView,
    PrimitiveInterfaceType, RecordField, RecordFieldView, VariantCase, VariantCaseView,
};
use super::operator_laws::number_then;
use super::operators::ConstExpr;
use super::sections::{
    parse_data, parse_section, DataKindView, Element, ElementKindView, Global, SectionReader,
};
use super::types::{
    parse_list, Export, FromReader, GlobalType, Import, ImportView, Type, TypeDef, TypeDefView,
    TypeRef,
};
use crate::error::BinaryReaderError;
use vstd::prelude::*;

verus! {

/// A list is a number, which is at most so many, and then so many values.
pub proof fn law_counted<'a, T: FromReader<'a>>(c: Cursor, limit: int, what: &'static str)
    ensures
        parse_counted::<T>(c, limit, what).1 is Ok <==> {
            let (d, n) = c.var_u32();
            n is Ok && n->Ok_0 <= limit && parse_list::<T>(d, n->Ok_0 as nat, Seq::empty()).1 is Ok
        },
        parse_counted::<T>(c, limit, what).1 is Ok ==> {
            let (d, n) = c.var_u32();
            parse_counted::<T>(c, limit, what) == parse_list::<T>(
                d,
                n->Ok_0 as nat,
                Seq::empty(),
            )
        },
{
}

/// A section with items starts with how many there are, and the items follow.
pub proof fn law_section_head(data: Seq<u8>, offset: int)
    ensures
        parse_section(data, offset) is Ok <==> Cursor::start(data, offset).var_u32().1 is Ok,
        parse_section(data, offset) matches Ok(section) ==> {
            let (c, n) = Cursor::start(data, offset).var_u32();
            section.cursor == c && section.count == n->Ok_0 && !section.forbid_bulk_memory
        },
{
}

/// A global is its type and the expression that gives its first value.
pub proof fn law_global_item(c: Cursor)
    ensures
        <Global as FromReader>::parse(c) matches (d, Ok(global)) ==> {
            let (e, ty) = <GlobalType as FromReader>::parse(c);
            let (f, init) = <ConstExpr as FromReader>::parse(e);
            ty is Ok && ty->Ok_0 == global.ty && init is Ok && init->Ok_0 == global.init_expr && f
                == d
        },
{
}

/// A data segment starts with 0 if it goes to the first memory, with 1 if it is put there when the
/// program asks for it, and with 2 and the index of a memory if it goes there; only the first is there
/// without bulk memory. Where it goes in the memory is said by an expression. Then come its length and
/// its bytes.
pub proof fn law_data_item(c: Cursor, forbid_bulk_memory: bool)
    ensures
        parse_data(c, forbid_bulk_memory) matches (d, Ok(item)) ==> {
            let (e, flags) = c.var_u32();
            let place = if flags->Ok_0 == 2 {
                e.var_u32().0
            } else {
                e
            };
            let body = if item.kind is Passive {
                e
            } else {
                <ConstExpr as FromReader>::parse(place).0
            };
            let (f, n) = body.var_u32();
            &&& flags is Ok && flags->Ok_0 <= 2
            &&& forbid_bulk_memory ==> flags->Ok_0 == 0
            &&& item.kind is Passive <==> flags->Ok_0 == 1
            &&& item.kind matches DataKindView::Active { memory_index, init_expr } ==> {
                &&& <ConstExpr as FromReader>::parse(place).1 is Ok
                &&& <ConstExpr as FromReader>::parse(place).1->Ok_0 == init_expr
                &&& memory_index == if flags->Ok_0 == 2 {
                    e.var_u32().1->Ok_0
                } else {
                    0
                }
            }
            &&& n is Ok && n->Ok_0 <= f.left()
            &&& item.data == f.bytes.subrange(f.pos, f.pos + n->Ok_0)
            &&& d == f.advance(n->Ok_0 as int)
        },
{
}

/// An element segment starts with a number of three bits. The first says that it goes to no table of
/// itself. The second then says that it only declares its elements, and otherwise that the index of its
/// table is there. The third says that its elements are expressions. Where it goes in a table is said
/// by an expression.
pub proof fn law_element_item(c: Cursor)
    ensures
        <Element as FromReader>::parse(c) matches (d, Ok(item)) ==> {
            let (e, flags) = c.var_u32();
            let n = flags->Ok_0;
            &&& flags is Ok && n < 8
            &&& item.kind is Passive <==> n == 1 || n == 5
            &&& item.kind is Declared <==> n == 3 || n == 7
            &&& item.kind is Active <==> n == 0 || n == 2 || n == 4 || n == 6
            &&& item.items is Expressions <==> n >= 4
            &&& n <= 4 ==> item.ty == Type::FuncRef
            &&& item.kind matches ElementKindView::Active { table_index, init_expr } ==> {
                let place = if n == 2 || n == 6 {
                    e.var_u32().0
                } else {
                    e
                };
                &&& <ConstExpr as FromReader>::parse(place).1 is Ok
                &&& <ConstExpr as FromReader>::parse(place).1->Ok_0 == init_expr
                &&& table_index == if n == 2 || n == 6 {
                    e.var_u32().1->Ok_0
                } else {
                    0
                }
            }
        },
{
}

/// The byte that stands for a kind of export or argument.
pub open spec fn arg_code(kind: ComponentArgKind) -> (u8, u32) {
    match kind {
        ComponentArgKind::Module(i) => (0x00, i),
        ComponentArgKind::Component(i) => (0x01, i),
        ComponentArgKind::Instance(i) => (0x02, i),
        ComponentArgKind::Function(i) => (0x03, i),
        ComponentArgKind::Value(i) => (0x04, i),
        ComponentArgKind::Type(i) => (0x05, i),
    }
}

/// What a component exports, or is given, is a byte for its kind and its index. An export is a name in
/// front of that.
pub proof fn law_component_export_item(c: Cursor, d: Cursor, kind: ComponentArgKind)
    ensures
        <ComponentArgKind as FromReader>::parse(c) == (d, Ok::<ComponentArgKind, BinaryReaderError>(
            kind,
        )) <==> c.left() > 0 && c.bytes[c.pos] == arg_code(kind).0 && number_then(
            c.advance(1),
            arg_code(kind).1,
            d,
        ),
        <ComponentExport as FromReader>::parse(c).1 is Ok <==> c.string().1 is Ok
            && <ComponentArgKind as FromReader>::parse(c.string().0).1 is Ok,
        <ComponentExport as FromReader>::parse(c) matches (e, Ok(export)) ==> {
            &&& export.name == c.string().1->Ok_0
            &&& <ComponentArgKind as FromReader>::parse(c.string().0) == (e, Ok::<
                ComponentArgKind,
                BinaryReaderError,
            >(export.kind))
        },
        forall|forbid: bool| #[trigger]
            ComponentExportSectionReader::parse_item(forbid, c) == <ComponentExport as FromReader>::parse(
                c,
            ),
{
}

/// An import of a component is a name and the index of a type.
pub proof fn law_component_import_item(c: Cursor)
    ensures
        <ComponentImport as FromReader>::parse(c) matches (d, Ok(import)) ==> c.string().1 is Ok
            && c.string().1->Ok_0 == import.name && number_then(c.string().0, import.ty, d),
{
}

/// What a module is given is a name and the index of an instance.
pub proof fn law_module_arg_item(c: Cursor)
    ensures
        <ModuleArg as FromReader>::parse(c) matches (d, Ok(arg)) ==> {
            let e = c.string().0;
            &&& c.string().1 is Ok && c.string().1->Ok_0 == arg.name
            &&& e.left() > 0 && e.bytes[e.pos] == 0x02
            &&& number_then(e.advance(1), arg.instance, d)
        },
{
}

/// An instance is of a module or of a component, with an index and what it is given, or is put together
/// from exports.
pub proof fn law_instance_item(c: Cursor)
    ensures
        <Instance as FromReader>::parse(c) matches (d, Ok(item)) ==> {
            let what = c.bytes[c.pos];
            let e = c.advance(1);
            let (f, index) = c.advance(2).var_u32();
            let (g, n) = f.var_u32();
            let (h, m) = e.var_u32();
            &&& c.left() > 0
            &&& match item {
                InstanceView::Module { index: i, args } => {
                    &&& what == 0 && e.left() > 0 && e.bytes[e.pos] == 0
                    &&& index is Ok && index->Ok_0 == i
                    &&& n is Ok && n->Ok_0 <= 10_000
                    &&& parse_list::<ModuleArg>(g, n->Ok_0 as nat, Seq::empty()).1 is Ok
                    &&& parse_list::<ModuleArg>(g, n->Ok_0 as nat, Seq::empty()).1->Ok_0 == args
                },
                InstanceView::Component { index: i, args } => {
                    &&& what == 0 && e.left() > 0 && e.bytes[e.pos] == 1
                    &&& index is Ok && index->Ok_0 == i
                    &&& n is Ok && n->Ok_0 <= 10_000
                    &&& parse_list::<ComponentExport>(g, n->Ok_0 as nat, Seq::empty()).1 is Ok
                    &&& parse_list::<ComponentExport>(g, n->Ok_0 as nat, Seq::empty()).1->Ok_0
                        == args
                },
                InstanceView::ComponentFromExports(exports) => {
                    &&& what == 1
                    &&& m is Ok && m->Ok_0 <= 10_000
                    &&& parse_list::<ComponentExport>(h, m->Ok_0 as nat, Seq::empty()).1 is Ok
                    &&& parse_list::<ComponentExport>(h, m->Ok_0 as nat, Seq::empty()).1->Ok_0
                        == exports
                },
                InstanceView::ModuleFromExports(exports) => {
                    &&& what == 2
                    &&& m is Ok && m->Ok_0 <= 10_000
                    &&& parse_list::<Export>(h, m->Ok_0 as nat, Seq::empty()).1 is Ok
                    &&& parse_list::<Export>(h, m->Ok_0 as nat, Seq::empty()).1->Ok_0 == exports
                },
            }
        },
{
}

/// The bytes that stand for a kind of alias.
pub open spec fn alias_code(kind: AliasKind) -> (u8, u8) {
    match kind {
        AliasKind::Module => (0x00, 0x00),
        AliasKind::Component => (0x00, 0x01),
        AliasKind::Instance => (0x00, 0x02),
        AliasKind::ComponentFunc => (0x00, 0x03),
        AliasKind::Value => (0x00, 0x04),
        AliasKind::Func => (0x01, 0x00),
        AliasKind::Table => (0x01, 0x01),
        AliasKind::Memory => (0x01, 0x02),
        AliasKind::Global => (0x01, 0x03),
        AliasKind::Tag => (0x01, 0x04),
    }
}

/// An alias is two bytes that say what it is for, and then the index of an instance and a name, or how
/// far out something is and its index.
pub proof fn law_alias_item(c: Cursor)
    ensures
        <Alias as FromReader>::parse(c) matches (d, Ok(alias)) ==> {
            let form = c.bytes[c.pos];
            let what = c.bytes[c.pos + 1];
            let (e, first) = c.advance(2).var_u32();
            &&& c.left() >= 2
            &&& first is Ok
            &&& match alias {
                AliasView::InstanceExport { kind, instance, name } => {
                    &&& (form, what) == alias_code(kind)
                    &&& first->Ok_0 == instance
                    &&& e.string() == (d, Ok::<Seq<char>, BinaryReaderError>(name))
                },
                AliasView::OuterModule { count, index } => form == 2 && what == 0 && first->Ok_0
                    == count && number_then(e, index, d),
                AliasView::OuterComponent { count, index } => form == 2 && what == 1 && first->Ok_0
                    == count && number_then(e, index, d),
                AliasView::OuterType { count, index } => form == 2 && what == 5 && first->Ok_0
                    == count && number_then(e, index, d),
            }
        },
{
}

/// An option is a byte, with the index of an instance behind the last.
pub proof fn law_option_item(c: Cursor)
    ensures
        <CanonicalOption as FromReader>::parse(c) matches (d, Ok(option)) ==> {
            let what = c.bytes[c.pos];
            &&& c.left() > 0
            &&& match option {
                CanonicalOption::UTF8 => what == 0 && d == c.advance(1),
                CanonicalOption::UTF16 => what == 1 && d == c.advance(1),
                CanonicalOption::CompactUTF16 => what == 2 && d == c.advance(1),
                CanonicalOption::Into(instance) => what == 3 && number_then(
                    c.advance(1),
                    instance,
                    d,
                ),
            }
        },
{
}

/// A function of a component is made from a core function, of a type, or is made into one, both with at
/// most ten options. A start is a function and at most a thousand arguments.
pub proof fn law_component_function_item(c: Cursor)
    ensures
        <ComponentFunction as FromReader>::parse(c) matches (d, Ok(item)) ==> {
            let (e, first) = c.advance(1).var_u32();
            let (f, second) = e.var_u32();
            &&& c.left() > 0 && first is Ok
            &&& match item {
                ComponentFunctionView::Lift { type_index, func_index, options } => {
                    let (g, n) = f.var_u32();
                    &&& c.bytes[c.pos] == 0 && first->Ok_0 == type_index
                    &&& second is Ok && second->Ok_0 == func_index
                    &&& n is Ok && n->Ok_0 <= 10
                    &&& parse_list::<CanonicalOption>(g, n->Ok_0 as nat, Seq::empty()) == (d, Ok::<
                        Seq<CanonicalOption>,
                        BinaryReaderError,
                    >(options))
                },
                ComponentFunctionView::Lower { func_index, options } => {
                    &&& c.bytes[c.pos] == 1 && first->Ok_0 == func_index
                    &&& second is Ok && second->Ok_0 <= 10
                    &&& parse_list::<CanonicalOption>(f, second->Ok_0 as nat, Seq::empty()) == (
                        d,
                        Ok::<Seq<CanonicalOption>, BinaryReaderError>(options),
                    )
                },
            }
        },
        <ComponentStartFunction as FromReader>::parse(c) matches (d, Ok(item)) ==> {
            let (e, first) = c.var_u32();
            let (f, n) = e.var_u32();
            &&& first is Ok && first->Ok_0 == item.func_index
            &&& n is Ok && n->Ok_0 <= 1_000
            &&& parse_list::<u32>(f, n->Ok_0 as nat, Seq::empty()) == (d, Ok::<
                Seq<u32>,
                BinaryReaderError,
            >(item.arguments))
        },
{
}

/// The primitive types in the order of their bytes, from the highest down.
pub open spec fn primitives() -> Seq<PrimitiveInterfaceType> {
    seq![
        PrimitiveInterfaceType::Unit,
        PrimitiveInterfaceType::Bool,
        PrimitiveInterfaceType::S8,
        PrimitiveInterfaceType::U8,
        PrimitiveInterfaceType::S16,
        PrimitiveInterfaceType::U16,
        PrimitiveInterfaceType::S32,
        PrimitiveInterfaceType::U32,
        PrimitiveInterfaceType::S64,
        PrimitiveInterfaceType::U64,
        PrimitiveInterfaceType::Float32,
        PrimitiveInterfaceType::Float64,
        PrimitiveInterfaceType::Char,
        PrimitiveInterfaceType::String,
    ]
}

/// The primitive types have the bytes from 0x7f down.
pub proof fn law_primitive_byte(byte: u8)
    ensures
        PrimitiveInterfaceType::of_byte(byte) is Some <==> 0x72 <= byte <= 0x7f,
        0x72 <= byte <= 0x7f ==> PrimitiveInterfaceType::of_byte(byte) == Some(
            primitives()[0x7f - byte],
        ),
{
}

/// An interface type where it is used is the byte of a primitive type or an index.
pub proof fn law_use_item(c: Cursor)
    ensures
        <InterfaceTypeRef as FromReader>::parse(c) matches (d, Ok(ty)) ==> {
            &&& c.left() > 0
            &&& match ty {
                InterfaceTypeRef::Primitive(p) => 0x72 <= c.bytes[c.pos] <= 0x7f
                    && primitives()[0x7f - c.bytes[c.pos]] == p && d == c.advance(1),
                InterfaceTypeRef::Type(n) => c.var_s33() == (d, Ok::<i64, BinaryReaderError>(
                    n as i64,
                )),
            }
        },
{
}

/// A use of an interface type stands in front of a place.
pub open spec fn use_then(c: Cursor, ty: InterfaceTypeRef, d: Cursor) -> bool {
    <InterfaceTypeRef as FromReader>::parse(c) == (d, Ok::<InterfaceTypeRef, BinaryReaderError>(
        ty,
    ))
}

/// A field of a record is a name and a type. A case of a variant is a name, a type, and a byte that
/// says whether the index of a case to fall back on follows. A parameter is a byte that says whether a
/// name follows, and a type.
pub proof fn law_part_items(c: Cursor)
    ensures
        <RecordField as FromReader>::parse(c) matches (d, Ok(field)) ==> c.string().1 is Ok
            && c.string().1->Ok_0 == field.name && use_then(c.string().0, field.ty, d),
        <VariantCase as FromReader>::parse(c) matches (d, Ok(case)) ==> {
            let e = <InterfaceTypeRef as FromReader>::parse(c.string().0).0;
            &&& c.string().1 is Ok && c.string().1->Ok_0 == case.name
            &&& use_then(c.string().0, case.ty, e)
            &&& e.left() > 0
            &&& match case.default_to {
                None => e.bytes[e.pos] == 0 && d == e.advance(1),
                Some(n) => e.bytes[e.pos] == 1 && number_then(e.advance(1), n, d),
            }
        },
        <ComponentParam as FromReader>::parse(c) matches (d, Ok(param)) ==> {
            &&& c.left() > 0
            &&& match param.name {
                None => c.bytes[c.pos] == 0 && use_then(c.advance(1), param.ty, d),
                Some(name) => {
                    let (e, found) = c.advance(1).string();
                    c.bytes[c.pos] == 1 && found is Ok && found->Ok_0 == name && use_then(
                        e,
                        param.ty,
                        d,
                    )
                },
            }
        },
{
}

/// An interface type is a byte that says how it is made, and what it is made of. A list of parts is a
/// number and the parts, of which there are at most ten thousand, or a thousand flags.
pub proof fn law_interface_item(c: Cursor, byte: u8, start: int)
    ensures
        parse_interface(c, byte, start) matches (d, Ok(ty)) ==> {
            let (e, n) = c.var_u32();
            match ty {
                InterfaceTypeView::Primitive(p) => 0x72 <= byte <= 0x7f && primitives()[0x7f - byte]
                    == p && d == c,
                InterfaceTypeView::Record(fields) => byte == 0x71 && n is Ok && n->Ok_0 <= 10_000
                    && parse_list::<RecordField>(e, n->Ok_0 as nat, Seq::empty()) == (d, Ok::<
                    Seq<RecordFieldView>,
                    BinaryReaderError,
                >(fields)),
                InterfaceTypeView::Variant(cases) => byte == 0x70 && n is Ok && n->Ok_0 <= 10_000
                    && parse_list::<VariantCase>(e, n->Ok_0 as nat, Seq::empty()) == (d, Ok::<
                    Seq<VariantCaseView>,
                    BinaryReaderError,
                >(cases)),
                InterfaceTypeView::List(part) => byte == 0x6f && use_then(c, part, d),
                InterfaceTypeView::Tuple(list) => byte == 0x6e && n is Ok && n->Ok_0 <= 10_000
                    && parse_list::<InterfaceTypeRef>(e, n->Ok_0 as nat, Seq::empty()) == (d, Ok::<
                    Seq<InterfaceTypeRef>,
                    BinaryReaderError,
                >(list)),
                InterfaceTypeView::Flags(names) => byte == 0x6d && n is Ok && n->Ok_0 <= 1_000
                    && parse_list::<&str>(e, n->Ok_0 as nat, Seq::empty()) == (d, Ok::<
                    Seq<Seq<char>>,
                    BinaryReaderError,
                >(names)),
                InterfaceTypeView::Enum(names) => byte == 0x6c && n is Ok && n->Ok_0 <= 10_000
                    && parse_list::<&str>(e, n->Ok_0 as nat, Seq::empty()) == (d, Ok::<
                    Seq<Seq<char>>,
                    BinaryReaderError,
                >(names)),
                InterfaceTypeView::Union(list) => byte == 0x6b && n is Ok && n->Ok_0 <= 10_000
                    && parse_list::<InterfaceTypeRef>(e, n->Ok_0 as nat, Seq::empty()) == (d, Ok::<
                    Seq<InterfaceTypeRef>,
                    BinaryReaderError,
                >(list)),
                InterfaceTypeView::Option(part) => byte == 0x6a && use_then(c, part, d),
                InterfaceTypeView::Expected { ok, error } => {
                    let f = <InterfaceTypeRef as FromReader>::parse(c).0;
                    byte == 0x69 && use_then(c, ok, f) && use_then(f, error, d)
                },
            }
        },
{
}

/// A type of a component is a byte that says of what it is the type, and then what it is: for a module
/// a list of declarations, for a function what it takes and gives.
pub proof fn law_definition_item(c: Cursor)
    requires
        c.wf(),
    ensures
        parse_type_def(c) matches (d, Ok(def)) ==> {
            let byte = c.bytes[c.pos];
            let e = c.advance(1);
            let (f, n) = e.var_u32();
            &&& c.left() > 0
            &&& match def {
                ComponentTypeDefView::Module(decls) => byte == 0x4f && n is Ok && n->Ok_0 <= 100_000
                    && parse_list::<ModuleType>(f, n->Ok_0 as nat, Seq::empty()) == (d, Ok::<
                    Seq<ModuleTypeView>,
                    BinaryReaderError,
                >(decls)),
                ComponentTypeDefView::Component(_) => byte == 0x4e && n is Ok && n->Ok_0 <= 100_000,
                ComponentTypeDefView::Instance(_) => byte == 0x4d && n is Ok && n->Ok_0 <= 100_000,
                ComponentTypeDefView::Function(ty) => {
                    let (g, list) = parse_list::<ComponentParam>(
                        f,
                        n->Ok_0 as nat,
                        Seq::empty(),
                    );
                    &&& byte == 0x4c && n is Ok && n->Ok_0 <= 1_000
                    &&& list is Ok && list->Ok_0 == ty.params
                    &&& use_then(g, ty.result, d)
                },
                ComponentTypeDefView::Value(ty) => byte == 0x4b && use_then(e, ty, d),
                ComponentTypeDefView::Interface(ty) => parse_interface(e, byte, c.offset()) == (
                    d,
                    Ok::<InterfaceTypeView, BinaryReaderError>(ty),
                ),
            }
        },
        <ModuleType as FromReader>::parse(c) matches (d, Ok(decl)) ==> {
            let byte = c.bytes[c.pos];
            let e = c.advance(1);
            &&& c.left() > 0
            &&& match decl {
                ModuleTypeView::Type(ty) => byte == 1 && <TypeDef as FromReader>::parse(e) == (
                    d,
                    Ok::<TypeDefView, BinaryReaderError>(ty),
                ),
                ModuleTypeView::Import(import) => byte == 2 && <Import as FromReader>::parse(e) == (
                    d,
                    Ok::<ImportView, BinaryReaderError>(import),
                ),
                ModuleTypeView::Export { name, ty } => {
                    &&& byte == 7
                    &&& e.string().1 is Ok && e.string().1->Ok_0 == name
                    &&& <TypeRef as FromReader>::parse(e.string().0) == (d, Ok::<
                        TypeRef,
                        BinaryReaderError,
                    >(ty))
                },
            }
        },
{
}

} // verus!
