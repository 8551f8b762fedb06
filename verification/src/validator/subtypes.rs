//! When something of one type can stand where another type is expected.

use super::names::{has_name, lemma_lookup, lookup, NameMap};
use super::types::{
    entities_ok, is_component_func_type, types_ok, ComponentEntityType, DefinedType,
    DefinedTypeView, EntityType, FuncDefView, InterfaceDef, InterfaceDefView, ModuleDef,
    ModuleDefView, ModuleImport, ModuleImportView, ParamDefView, TypeList, TypeUse,
};
use crate::reader::component::types::PrimitiveInterfaceType;
use crate::reader::types::{views, FuncType, MemoryType, TableType, Type};
use vstd::prelude::*;

verus! {

/// A value of primitive type `a` can stand for one of type `b`.
pub open spec fn sub_primitive(a: PrimitiveInterfaceType, b: PrimitiveInterfaceType) -> bool {
    ||| a == b
    ||| b == PrimitiveInterfaceType::Unit
    ||| match a {
        PrimitiveInterfaceType::S8 => {
            ||| b == PrimitiveInterfaceType::S16
            ||| b == PrimitiveInterfaceType::S32
            ||| b == PrimitiveInterfaceType::S64
        },
        PrimitiveInterfaceType::U8 => {
            ||| b == PrimitiveInterfaceType::U16
            ||| b == PrimitiveInterfaceType::U32
            ||| b == PrimitiveInterfaceType::U64
            ||| b == PrimitiveInterfaceType::S16
            ||| b == PrimitiveInterfaceType::S32
            ||| b == PrimitiveInterfaceType::S64
        },
        PrimitiveInterfaceType::S16 => {
            ||| b == PrimitiveInterfaceType::S32
            ||| b == PrimitiveInterfaceType::S64
        },
        PrimitiveInterfaceType::U16 => {
            ||| b == PrimitiveInterfaceType::U32
            ||| b == PrimitiveInterfaceType::U64
            ||| b == PrimitiveInterfaceType::S32
            ||| b == PrimitiveInterfaceType::S64
        },
        PrimitiveInterfaceType::S32 => b == PrimitiveInterfaceType::S64,
        PrimitiveInterfaceType::U32 => {
            ||| b == PrimitiveInterfaceType::U64
            ||| b == PrimitiveInterfaceType::S64
        },
        PrimitiveInterfaceType::Float32 => b == PrimitiveInterfaceType::Float64,
        _ => false,
    }
}

/// How far the types that a use speaks of can go down the list of all types.
pub open spec fn use_rank(ty: TypeUse) -> nat {
    match ty {
        TypeUse::Primitive(_) => 0,
        TypeUse::Type(place) => (place + 1) as nat,
    }
}

/// A value of type `a` can stand for one of type `b`.
pub open spec fn sub_use(types: Seq<DefinedTypeView>, a: TypeUse, b: TypeUse) -> bool
    decreases use_rank(a) + use_rank(b), 1int,
    when types_ok(types) && a.ok(types) && b.ok(types)
{
    match (a, b) {
        (TypeUse::Primitive(a), TypeUse::Primitive(b)) => sub_primitive(a, b),
        (TypeUse::Type(p), TypeUse::Type(q)) => sub_interface(types, p, q),
        (TypeUse::Primitive(a), TypeUse::Type(q)) => {
            &&& types[q as int]->Interface_0 matches InterfaceDefView::Primitive(b)
            &&& sub_primitive(a, b)
        },
        (TypeUse::Type(p), TypeUse::Primitive(b)) => {
            &&& types[p as int]->Interface_0 matches InterfaceDefView::Primitive(a)
            &&& sub_primitive(a, b)
        },
    }
}

/// The type is that of a value or none.
pub open spec fn is_optional(types: Seq<DefinedTypeView>, ty: TypeUse) -> bool {
    ty matches TypeUse::Type(p) && types[p as int]->Interface_0 is Option
}

/// All names of `a` are names of `b`.
pub open spec fn names_in(a: Seq<(Seq<char>, ())>, b: Seq<(Seq<char>, ())>) -> bool {
    forall|i: int| 0 <= i < a.len() ==> has_name(b, (#[trigger] a[i]).0)
}

/// A value of the interface type at place `p` can stand for one of that at `q`.
pub open spec fn sub_interface(types: Seq<DefinedTypeView>, p: usize, q: usize) -> bool
    decreases p + q + 2, 0int,
    when types_ok(types) && TypeUse::Type(p).ok(types) && TypeUse::Type(q).ok(types)
{
    match (types[p as int]->Interface_0, types[q as int]->Interface_0) {
        (InterfaceDefView::Primitive(a), InterfaceDefView::Primitive(b)) => sub_primitive(a, b),
        (InterfaceDefView::Record(a), InterfaceDefView::Record(b)) => forall|j: int|
            0 <= j < b.len() ==> match lookup(a, (#[trigger] b[j]).0) {
                Some(ty) => sub_use(types, ty, b[j].1),
                None => is_optional(types, b[j].1),
            },
        (InterfaceDefView::Variant(a), InterfaceDefView::Variant(b)) => forall|i: int|
            0 <= i < a.len() ==> match lookup(b, (#[trigger] a[i]).0) {
                Some(case) => sub_use(types, a[i].1.ty, case.ty),
                None => a[i].1.default_to matches Some(d) && d < a.len() && has_name(
                    b,
                    a[d as int].0,
                ),
            },
        (InterfaceDefView::List(a), InterfaceDefView::List(b)) => sub_use(types, a, b),
        (InterfaceDefView::Tuple(a), InterfaceDefView::Tuple(b)) => {
            &&& b.len() <= a.len()
            &&& forall|i: int| 0 <= i < b.len() ==> sub_use(types, #[trigger] a[i], b[i])
        },
        (InterfaceDefView::Flags(a), InterfaceDefView::Flags(b)) => names_in(a, b),
        (InterfaceDefView::Enum(a), InterfaceDefView::Enum(b)) => names_in(a, b),
        (InterfaceDefView::Union(a), InterfaceDefView::Union(b)) => {
            &&& a.len() <= b.len()
            &&& forall|i: int| 0 <= i < a.len() ==> sub_use(types, #[trigger] a[i], b[i])
        },
        (InterfaceDefView::Option(a), InterfaceDefView::Option(b)) => sub_use(types, a, b),
        (
            InterfaceDefView::Expected { ok: a, error: e },
            InterfaceDefView::Expected { ok: b, error: f },
        ) => sub_use(types, a, b) && sub_use(types, e, f),
        _ => false,
    }
}

/// A table of type `a` can stand for one of type `b`.
pub open spec fn sub_table(a: TableType, b: TableType) -> bool {
    &&& a.element_type == b.element_type
    &&& a.initial >= b.initial
    &&& b.maximum matches Some(max) ==> a.maximum is Some && a.maximum->0 <= max
}

/// A memory of type `a` can stand for one of type `b`.
pub open spec fn sub_memory(a: MemoryType, b: MemoryType) -> bool {
    &&& a.memory64 == b.memory64
    &&& a.shared == b.shared
    &&& a.initial >= b.initial
    &&& b.maximum matches Some(max) ==> a.maximum is Some && a.maximum->0 <= max
}

/// Something of a module of type `a` can stand for something of type `b`.
pub open spec fn sub_core(types: Seq<DefinedTypeView>, a: EntityType, b: EntityType) -> bool {
    match (a, b) {
        (EntityType::Func(p), EntityType::Func(q)) => types[p as int]->Func_0
            == types[q as int]->Func_0,
        (EntityType::Table(a), EntityType::Table(b)) => sub_table(a, b),
        (EntityType::Memory(a), EntityType::Memory(b)) => sub_memory(a, b),
        (EntityType::Global(a), EntityType::Global(b)) => a == b,
        (EntityType::Tag(p), EntityType::Tag(q)) => types[p as int]->Func_0
            == types[q as int]->Func_0,
        _ => false,
    }
}

/// A module of type `a` can stand for one of type `b`: it exports all that is
/// expected, and imports nothing that is not provided.
pub open spec fn sub_module(types: Seq<DefinedTypeView>, a: ModuleDefView, b: ModuleDefView) -> bool {
    &&& forall|j: int|
        0 <= j < b.exports.len() ==> (lookup(a.exports, (#[trigger] b.exports[j]).0) matches Some(
            ty,
        ) && sub_core(types, ty, b.exports[j].1))
    &&& forall|i: int| 0 <= i < a.imports.len() ==> provided(types, b.imports, #[trigger] a.imports[i])
}

/// One of the imports of a module can stand for `import`.
pub open spec fn provided(
    types: Seq<DefinedTypeView>,
    imports: Seq<ModuleImportView>,
    import: ModuleImportView,
) -> bool {
    exists|k: int| 0 <= k < imports.len() && provides(types, #[trigger] imports[k], import)
}

/// An import of a module can stand for another.
pub open spec fn provides(
    types: Seq<DefinedTypeView>,
    given: ModuleImportView,
    import: ModuleImportView,
) -> bool {
    &&& given.module == import.module
    &&& given.name == import.name
    &&& sub_core(types, given.ty, import.ty)
}

/// A function of type `a` can stand for one of type `b`: it gives what is
/// expected, and takes what it is given. What it does not take is dropped, and
/// what it is not given has to be optional.
pub open spec fn sub_func(types: Seq<DefinedTypeView>, a: FuncDefView, b: FuncDefView) -> bool {
    &&& sub_use(types, a.result, b.result)
    &&& forall|i: int| 0 <= i < a.params.len() ==> takes(types, #[trigger] a.params[i], b.params, i)
}

/// A function that takes `param` in place `i` can be given `given`.
pub open spec fn takes(
    types: Seq<DefinedTypeView>,
    param: ParamDefView,
    given: Seq<ParamDefView>,
    i: int,
) -> bool {
    if i < given.len() {
        param.name == given[i].name && sub_use(types, given[i].ty, param.ty)
    } else {
        is_optional(types, param.ty)
    }
}

/// How far the types that an entity speaks of can go down the list of all types.
pub open spec fn entity_rank(ty: ComponentEntityType) -> nat {
    match ty {
        ComponentEntityType::Module(place) => (place + 1) as nat,
        ComponentEntityType::Component(place) => (place + 1) as nat,
        ComponentEntityType::Instance(place) => (place + 1) as nat,
        ComponentEntityType::Func(place) => (place + 1) as nat,
        ComponentEntityType::Value(_) => 0,
        ComponentEntityType::Type(place) => (place + 1) as nat,
    }
}

/// Something of a component of type `a` can stand for something of type `b`.
pub open spec fn sub_entity(
    types: Seq<DefinedTypeView>,
    a: ComponentEntityType,
    b: ComponentEntityType,
) -> bool
    decreases entity_rank(a) + entity_rank(b), 1int,
    when types_ok(types) && a.ok(types) && b.ok(types)
{
    match (a, b) {
        (ComponentEntityType::Module(p), ComponentEntityType::Module(q)) => sub_type(types, p, q),
        (ComponentEntityType::Component(p), ComponentEntityType::Component(q)) => sub_type(
            types,
            p,
            q,
        ),
        (ComponentEntityType::Instance(p), ComponentEntityType::Instance(q)) => sub_type(
            types,
            p,
            q,
        ),
        (ComponentEntityType::Func(p), ComponentEntityType::Func(q)) => sub_type(types, p, q),
        (ComponentEntityType::Value(a), ComponentEntityType::Value(b)) => sub_use(types, a, b),
        (ComponentEntityType::Type(p), ComponentEntityType::Type(q)) => sub_type(types, p, q),
        _ => false,
    }
}

/// What the type at place `p` is the type of can stand for what that at `q` is.
pub open spec fn sub_type(types: Seq<DefinedTypeView>, p: usize, q: usize) -> bool
    decreases p + q + 2, 0int,
    when types_ok(types) && p < types.len() && q < types.len()
{
    match (types[p as int], types[q as int]) {
        (DefinedTypeView::Func(a), DefinedTypeView::Func(b)) => a == b,
        (DefinedTypeView::Module(a), DefinedTypeView::Module(b)) => sub_module(types, a, b),
        (DefinedTypeView::Component(a), DefinedTypeView::Component(b)) => {
            &&& forall|j: int|
                0 <= j < b.exports.len() ==> (lookup(
                    a.exports,
                    (#[trigger] b.exports[j]).0,
                ) matches Some(ty) && sub_entity(types, ty, b.exports[j].1))
            &&& forall|i: int|
                0 <= i < a.imports.len() ==> (lookup(
                    b.imports,
                    (#[trigger] a.imports[i]).0,
                ) matches Some(ty) && sub_entity(types, ty, a.imports[i].1))
        },
        (DefinedTypeView::Instance(a), DefinedTypeView::Instance(b)) => forall|j: int|
            0 <= j < b.len() ==> (lookup(a, (#[trigger] b[j]).0) matches Some(ty) && sub_entity(
                types,
                ty,
                b[j].1,
            )),
        (DefinedTypeView::ComponentFunc(a), DefinedTypeView::ComponentFunc(b)) => sub_func(
            types,
            a,
            b,
        ),
        (DefinedTypeView::Value(a), DefinedTypeView::Value(b)) => sub_use(types, a, b),
        (DefinedTypeView::Interface(_), DefinedTypeView::Interface(_)) => sub_interface(
            types,
            p,
            q,
        ),
        _ => false,
    }
}

/// Whether a value of primitive type `a` can stand for one of type `b`.
pub fn is_sub_primitive(a: PrimitiveInterfaceType, b: PrimitiveInterfaceType) -> (yes: bool)
    ensures
        yes == sub_primitive(a, b),
{
    a == b || matches!(
        (a, b),
        (_, PrimitiveInterfaceType::Unit)
        | (PrimitiveInterfaceType::S8, PrimitiveInterfaceType::S16)
        | (PrimitiveInterfaceType::S8, PrimitiveInterfaceType::S32)
        | (PrimitiveInterfaceType::S8, PrimitiveInterfaceType::S64)
        | (PrimitiveInterfaceType::U8, PrimitiveInterfaceType::U16)
        | (PrimitiveInterfaceType::U8, PrimitiveInterfaceType::U32)
        | (PrimitiveInterfaceType::U8, PrimitiveInterfaceType::U64)
        | (PrimitiveInterfaceType::U8, PrimitiveInterfaceType::S16)
        | (PrimitiveInterfaceType::U8, PrimitiveInterfaceType::S32)
        | (PrimitiveInterfaceType::U8, PrimitiveInterfaceType::S64)
        | (PrimitiveInterfaceType::S16, PrimitiveInterfaceType::S32)
        | (PrimitiveInterfaceType::S16, PrimitiveInterfaceType::S64)
        | (PrimitiveInterfaceType::U16, PrimitiveInterfaceType::U32)
        | (PrimitiveInterfaceType::U16, PrimitiveInterfaceType::U64)
        | (PrimitiveInterfaceType::U16, PrimitiveInterfaceType::S32)
        | (PrimitiveInterfaceType::U16, PrimitiveInterfaceType::S64)
        | (PrimitiveInterfaceType::S32, PrimitiveInterfaceType::S64)
        | (PrimitiveInterfaceType::U32, PrimitiveInterfaceType::U64)
        | (PrimitiveInterfaceType::U32, PrimitiveInterfaceType::S64)
        | (PrimitiveInterfaceType::Float32, PrimitiveInterfaceType::Float64)
    )
}

/// Whether a value of type `a` can stand for one of type `b`.
pub fn is_sub_use(types: &TypeList, a: TypeUse, b: TypeUse) -> (yes: bool)
    requires
        types_ok(types@),
        a.ok(types@),
        b.ok(types@),
    ensures
        yes == sub_use(types@, a, b),
    decreases use_rank(a) + use_rank(b), 2int,
{
    match (a, b) {
        (TypeUse::Primitive(a), TypeUse::Primitive(b)) => is_sub_primitive(a, b),
        (TypeUse::Type(p), TypeUse::Type(q)) => is_sub_interface(types, p, q),
        (TypeUse::Primitive(a), TypeUse::Type(q)) => match types.interface(q) {
            InterfaceDef::Primitive(b) => is_sub_primitive(a, *b),
            _ => false,
        },
        (TypeUse::Type(p), TypeUse::Primitive(b)) => match types.interface(p) {
            InterfaceDef::Primitive(a) => is_sub_primitive(*a, b),
            _ => false,
        },
    }
}

fn is_optional_use(types: &TypeList, ty: TypeUse) -> (yes: bool)
    requires
        ty.ok(types@),
    ensures
        yes == is_optional(types@, ty),
{
    match ty {
        TypeUse::Primitive(_) => false,
        TypeUse::Type(p) => matches!(types.interface(p), InterfaceDef::Option(_)),
    }
}

fn names_among(a: &NameMap<()>, b: &NameMap<()>) -> (yes: bool)
    ensures
        yes == names_in(a@, b@),
{
    let mut i: usize = 0;
    while i < a.len()
        invariant
            i <= a@.len(),
            forall|k: int| 0 <= k < i ==> has_name(b@, (#[trigger] a@[k]).0),
        decreases a@.len() - i,
    {
        let name = a.entry(i).name.as_str();
        assert(a@[i as int].0 == name@);
        if b.get(name).is_none() {
            return false;
        }
        i = i + 1;
    }
    true
}

fn is_sub_record(types: &TypeList, p: usize, q: usize) -> (yes: bool)
    requires
        types_ok(types@),
        TypeUse::Type(p).ok(types@),
        TypeUse::Type(q).ok(types@),
        types@[p as int]->Interface_0 is Record,
        types@[q as int]->Interface_0 is Record,
    ensures
        yes == sub_interface(types@, p, q),
    decreases p + q + 2, 0int,
{
    let (a, b) = match (types.interface(p), types.interface(q)) {
        (InterfaceDef::Record(a), InterfaceDef::Record(b)) => (a, b),
        _ => {
            return false;
        },
    };
    assert(types@[p as int].ok(types@.take(p as int)));
    assert(types@[q as int].ok(types@.take(q as int)));
    let mut j: usize = 0;
    while j < b.len()
        invariant
            j <= b@.len(),
            types_ok(types@),
            p < types@.len(),
            q < types@.len(),
            types@[p as int] == DefinedTypeView::Interface(InterfaceDefView::Record(a@)),
            types@[q as int] == DefinedTypeView::Interface(InterfaceDefView::Record(b@)),
            InterfaceDefView::Record(a@).ok(types@.take(p as int)),
            InterfaceDefView::Record(b@).ok(types@.take(q as int)),
            forall|k: int|
                0 <= k < j ==> match lookup(a@, (#[trigger] b@[k]).0) {
                    Some(ty) => sub_use(types@, ty, b@[k].1),
                    None => is_optional(types@, b@[k].1),
                },
        decreases b@.len() - j,
    {
        let field = b.entry(j);
        let ty = field.value;
        assert(b@[j as int] == (field.name@, ty));
        let fits = match a.get(field.name.as_str()) {
            Some(given) => {
                proof {
                    lemma_lookup(a@, field.name@);
                }
                is_sub_use(types, *given, ty)
            },
            None => is_optional_use(types, ty),
        };
        if !fits {
            return false;
        }
        j = j + 1;
    }
    true
}

fn is_sub_variant(types: &TypeList, p: usize, q: usize) -> (yes: bool)
    requires
        types_ok(types@),
        TypeUse::Type(p).ok(types@),
        TypeUse::Type(q).ok(types@),
        types@[p as int]->Interface_0 is Variant,
        types@[q as int]->Interface_0 is Variant,
    ensures
        yes == sub_interface(types@, p, q),
    decreases p + q + 2, 0int,
{
    let (a, b) = match (types.interface(p), types.interface(q)) {
        (InterfaceDef::Variant(a), InterfaceDef::Variant(b)) => (a, b),
        _ => {
            return false;
        },
    };
    assert(types@[p as int].ok(types@.take(p as int)));
    assert(types@[q as int].ok(types@.take(q as int)));
    let mut i: usize = 0;
    while i < a.len()
        invariant
            i <= a@.len(),
            types_ok(types@),
            p < types@.len(),
            q < types@.len(),
            types@[p as int] == DefinedTypeView::Interface(InterfaceDefView::Variant(a@)),
            types@[q as int] == DefinedTypeView::Interface(InterfaceDefView::Variant(b@)),
            InterfaceDefView::Variant(a@).ok(types@.take(p as int)),
            InterfaceDefView::Variant(b@).ok(types@.take(q as int)),
            forall|k: int|
                0 <= k < i ==> match lookup(b@, (#[trigger] a@[k]).0) {
                    Some(case) => sub_use(types@, a@[k].1.ty, case.ty),
                    None => a@[k].1.default_to matches Some(d) && d < a@.len() && has_name(
                        b@,
                        a@[d as int].0,
                    ),
                },
        decreases a@.len() - i,
    {
        let case = a.entry(i);
        assert(a@[i as int] == (case.name@, case.value));
        let fits = match b.get(case.name.as_str()) {
            Some(expected) => {
                proof {
                    lemma_lookup(b@, case.name@);
                }
                is_sub_use(types, case.value.ty, expected.ty)
            },
            None => match case.value.default_to {
                Some(d) => (d as usize) < a.len() && b.get(
                    a.entry(d as usize).name.as_str(),
                ).is_some(),
                None => false,
            },
        };
        if !fits {
            return false;
        }
        i = i + 1;
    }
    true
}

fn is_sub_list(types: &TypeList, a: &Vec<TypeUse>, b: &Vec<TypeUse>, n: usize, Ghost(rank): Ghost<
    nat,
>) -> (yes: bool)
    requires
        types_ok(types@),
        n <= a@.len(),
        n <= b@.len(),
        forall|i: int| 0 <= i < n ==> (#[trigger] a@[i]).ok(types@),
        forall|i: int| 0 <= i < n ==> (#[trigger] b@[i]).ok(types@),
        forall|i: int| 0 <= i < n ==> use_rank(#[trigger] a@[i]) + use_rank(b@[i]) < rank,
    ensures
        yes == (forall|i: int| 0 <= i < n ==> sub_use(types@, #[trigger] a@[i], b@[i])),
    decreases rank, 0int,
{
    let mut i: usize = 0;
    while i < n
        invariant
            i <= n,
            types_ok(types@),
            n <= a@.len(),
            n <= b@.len(),
            forall|i: int| 0 <= i < n ==> (#[trigger] a@[i]).ok(types@),
            forall|i: int| 0 <= i < n ==> (#[trigger] b@[i]).ok(types@),
            forall|i: int| 0 <= i < n ==> use_rank(#[trigger] a@[i]) + use_rank(b@[i]) < rank,
            forall|k: int| 0 <= k < i ==> sub_use(types@, #[trigger] a@[k], b@[k]),
        decreases n - i,
    {
        assert(use_rank(a@[i as int]) + use_rank(b@[i as int]) < rank);
        if !is_sub_use(types, a[i], b[i]) {
            return false;
        }
        i = i + 1;
    }
    true
}

fn is_sub_interface(types: &TypeList, p: usize, q: usize) -> (yes: bool)
    requires
        types_ok(types@),
        TypeUse::Type(p).ok(types@),
        TypeUse::Type(q).ok(types@),
    ensures
        yes == sub_interface(types@, p, q),
    decreases p + q + 2, 1int,
{
    assert(types@[p as int].ok(types@.take(p as int)));
    assert(types@[q as int].ok(types@.take(q as int)));
    match types.interface(p) {
        InterfaceDef::Primitive(a) => match types.interface(q) {
            InterfaceDef::Primitive(b) => is_sub_primitive(*a, *b),
            _ => false,
        },
        InterfaceDef::Record(_) => match types.interface(q) {
            InterfaceDef::Record(_) => is_sub_record(types, p, q),
            _ => false,
        },
        InterfaceDef::Variant(_) => match types.interface(q) {
            InterfaceDef::Variant(_) => is_sub_variant(types, p, q),
            _ => false,
        },
        InterfaceDef::List(a) => match types.interface(q) {
            InterfaceDef::List(b) => is_sub_use(types, *a, *b),
            _ => false,
        },
        InterfaceDef::Tuple(a) => match types.interface(q) {
            InterfaceDef::Tuple(b) => b.len() <= a.len() && is_sub_list(
                types,
                a,
                b,
                b.len(),
                Ghost((p + q + 2) as nat),
            ),
            _ => false,
        },
        InterfaceDef::Flags(a) => match types.interface(q) {
            InterfaceDef::Flags(b) => names_among(a, b),
            _ => false,
        },
        InterfaceDef::Enum(a) => match types.interface(q) {
            InterfaceDef::Enum(b) => names_among(a, b),
            _ => false,
        },
        InterfaceDef::Union(a) => match types.interface(q) {
            InterfaceDef::Union(b) => a.len() <= b.len() && is_sub_list(
                types,
                a,
                b,
                a.len(),
                Ghost((p + q + 2) as nat),
            ),
            _ => false,
        },
        InterfaceDef::Option(a) => match types.interface(q) {
            InterfaceDef::Option(b) => is_sub_use(types, *a, *b),
            _ => false,
        },
        InterfaceDef::Expected { ok: a, error: e } => match types.interface(q) {
            InterfaceDef::Expected { ok: b, error: f } => is_sub_use(types, *a, *b) && is_sub_use(
                types,
                *e,
                *f,
            ),
            _ => false,
        },
    }
}

/// Whether two lists of value types are the same.
pub fn same_types(a: &Vec<Type>, b: &Vec<Type>) -> (yes: bool)
    ensures
        yes == (a@ == b@),
{
    if a.len() != b.len() {
        return false;
    }
    let mut i: usize = 0;
    while i < a.len()
        invariant
            i <= a@.len(),
            a@.len() == b@.len(),
            forall|k: int| 0 <= k < i ==> a@[k] == b@[k],
        decreases a@.len() - i,
    {
        if a[i] != b[i] {
            return false;
        }
        i = i + 1;
    }
    assert(a@ =~= b@);
    true
}

/// Whether two types of core functions are the same.
pub fn same_func_type(a: &FuncType, b: &FuncType) -> (yes: bool)
    ensures
        yes == (a@ == b@),
{
    same_types(&a.params, &b.params) && same_types(&a.returns, &b.returns)
}

/// Whether something of a module of type `a` can stand for something of type `b`.
pub fn is_sub_core(types: &TypeList, a: EntityType, b: EntityType) -> (yes: bool)
    requires
        a.ok(types@),
        b.ok(types@),
    ensures
        yes == sub_core(types@, a, b),
{
    match (a, b) {
        (EntityType::Func(p), EntityType::Func(q)) => same_func_type(types.func(p), types.func(q)),
        (EntityType::Table(a), EntityType::Table(b)) => a.element_type == b.element_type
            && a.initial >= b.initial && match (a.maximum, b.maximum) {
            (Some(a), Some(b)) => a <= b,
            (None, Some(_)) => false,
            (_, None) => true,
        },
        (EntityType::Memory(a), EntityType::Memory(b)) => a.memory64 == b.memory64 && a.shared
            == b.shared && a.initial >= b.initial && match (a.maximum, b.maximum) {
            (Some(a), Some(b)) => a <= b,
            (None, Some(_)) => false,
            (_, None) => true,
        },
        (EntityType::Global(a), EntityType::Global(b)) => a == b,
        (EntityType::Tag(p), EntityType::Tag(q)) => same_func_type(types.func(p), types.func(q)),
        _ => false,
    }
}

fn is_provided(types: &TypeList, imports: &Vec<ModuleImport>, import: &ModuleImport) -> (yes: bool)
    requires
        forall|i: int| 0 <= i < imports@.len() ==> (#[trigger] imports@[i]).ty.ok(types@),
        import.ty.ok(types@),
    ensures
        yes == provided(types@, views(imports@), import@),
{
    let mut k: usize = 0;
    while k < imports.len()
        invariant
            k <= imports@.len(),
            forall|i: int| 0 <= i < imports@.len() ==> (#[trigger] imports@[i]).ty.ok(types@),
            import.ty.ok(types@),
            forall|i: int| 0 <= i < k ==> !provides(types@, #[trigger] views(imports@)[i], import@),
        decreases imports@.len() - k,
    {
        let given = &imports[k];
        assert(views(imports@)[k as int] == given@);
        if given.module.eq(&import.module) && given.name.eq(&import.name) && is_sub_core(
            types,
            given.ty,
            import.ty,
        ) {
            return true;
        }
        k = k + 1;
    }
    false
}

fn is_sub_module(types: &TypeList, a: &ModuleDef, b: &ModuleDef) -> (yes: bool)
    requires
        DefinedTypeView::Module(a@).ok(types@),
        DefinedTypeView::Module(b@).ok(types@),
    ensures
        yes == sub_module(types@, a@, b@),
{
    let mut j: usize = 0;
    while j < b.exports.len()
        invariant
            j <= b.exports@.len(),
            DefinedTypeView::Module(a@).ok(types@),
            DefinedTypeView::Module(b@).ok(types@),
            forall|k: int|
                0 <= k < j ==> (lookup(a.exports@, (#[trigger] b.exports@[k]).0) matches Some(ty)
                    && sub_core(types@, ty, b.exports@[k].1)),
        decreases b.exports@.len() - j,
    {
        let export = b.exports.entry(j);
        assert(b.exports@[j as int] == (export.name@, export.value));
        let fits = match a.exports.get(export.name.as_str()) {
            Some(given) => {
                proof {
                    lemma_lookup(a.exports@, export.name@);
                }
                is_sub_core(types, *given, export.value)
            },
            None => false,
        };
        if !fits {
            return false;
        }
        j = j + 1;
    }
    assert forall|i: int| 0 <= i < b.imports@.len() implies (#[trigger] b.imports@[i]).ty.ok(
        types@,
    ) by {
        assert(b@.imports[i] == b.imports@[i]@);
    }
    let mut i: usize = 0;
    while i < a.imports.len()
        invariant
            i <= a.imports@.len(),
            DefinedTypeView::Module(a@).ok(types@),
            forall|i: int| 0 <= i < b.imports@.len() ==> (#[trigger] b.imports@[i]).ty.ok(types@),
            forall|k: int| 0 <= k < i ==> provided(types@, b@.imports, #[trigger] a@.imports[k]),
        decreases a.imports@.len() - i,
    {
        assert(a@.imports[i as int] == a.imports@[i as int]@);
        if !is_provided(types, &b.imports, &a.imports[i]) {
            return false;
        }
        i = i + 1;
    }
    true
}

fn same_name(a: &Option<String>, b: &Option<String>) -> (yes: bool)
    ensures
        yes == (match (a, b) {
            (Some(a), Some(b)) => a@ == b@,
            (None, None) => true,
            _ => false,
        }),
{
    match (a, b) {
        (Some(a), Some(b)) => a.eq(b),
        (None, None) => true,
        _ => false,
    }
}

fn is_sub_func(types: &TypeList, p: usize, q: usize) -> (yes: bool)
    requires
        types_ok(types@),
        is_component_func_type(types@, p),
        is_component_func_type(types@, q),
    ensures
        yes == sub_func(
            types@,
            types@[p as int]->ComponentFunc_0,
            types@[q as int]->ComponentFunc_0,
        ),
{
    assert(types@[p as int].ok(types@.take(p as int)));
    assert(types@[q as int].ok(types@.take(q as int)));
    let a = types.component_func(p);
    let b = types.component_func(q);
    if !is_sub_use(types, a.result, b.result) {
        return false;
    }
    let mut i: usize = 0;
    while i < a.params.len()
        invariant
            i <= a.params@.len(),
            types_ok(types@),
            p < types@.len(),
            q < types@.len(),
            types@[p as int] == DefinedTypeView::ComponentFunc(a@),
            types@[q as int] == DefinedTypeView::ComponentFunc(b@),
            types@[p as int].ok(types@.take(p as int)),
            types@[q as int].ok(types@.take(q as int)),
            forall|k: int|
                0 <= k < i ==> takes(types@, #[trigger] a@.params[k], b@.params, k),
        decreases a.params@.len() - i,
    {
        assert(a@.params[i as int] == a.params@[i as int]@);
        let fits = if i < b.params.len() {
            assert(b@.params[i as int] == b.params@[i as int]@);
            same_name(&a.params[i].name, &b.params[i].name) && is_sub_use(
                types,
                b.params[i].ty,
                a.params[i].ty,
            )
        } else {
            is_optional_use(types, a.params[i].ty)
        };
        if !fits {
            return false;
        }
        i = i + 1;
    }
    true
}

/// Whether something of a component of type `a` can stand for something of type `b`.
pub fn is_sub_entity(types: &TypeList, a: ComponentEntityType, b: ComponentEntityType) -> (yes: bool)
    requires
        types_ok(types@),
        a.ok(types@),
        b.ok(types@),
    ensures
        yes == sub_entity(types@, a, b),
    decreases entity_rank(a) + entity_rank(b), 2int,
{
    match (a, b) {
        (ComponentEntityType::Module(p), ComponentEntityType::Module(q)) => is_sub_type(
            types,
            p,
            q,
        ),
        (ComponentEntityType::Component(p), ComponentEntityType::Component(q)) => is_sub_type(
            types,
            p,
            q,
        ),
        (ComponentEntityType::Instance(p), ComponentEntityType::Instance(q)) => is_sub_type(
            types,
            p,
            q,
        ),
        (ComponentEntityType::Func(p), ComponentEntityType::Func(q)) => is_sub_type(types, p, q),
        (ComponentEntityType::Value(a), ComponentEntityType::Value(b)) => is_sub_use(types, a, b),
        (ComponentEntityType::Type(p), ComponentEntityType::Type(q)) => is_sub_type(types, p, q),
        _ => false,
    }
}

/// All of `expected` are among `given`, of a type that can stand for the
/// expected one.
pub open spec fn all_given(
    types: Seq<DefinedTypeView>,
    given: Seq<(Seq<char>, ComponentEntityType)>,
    expected: Seq<(Seq<char>, ComponentEntityType)>,
) -> bool {
    forall|j: int|
        0 <= j < expected.len() ==> (lookup(given, (#[trigger] expected[j]).0) matches Some(ty)
            && sub_entity(types, ty, expected[j].1))
}

fn are_all_given(
    types: &TypeList,
    given: &NameMap<ComponentEntityType>,
    expected: &NameMap<ComponentEntityType>,
    Ghost(p): Ghost<int>,
    Ghost(q): Ghost<int>,
) -> (yes: bool)
    requires
        types_ok(types@),
        0 <= p < types@.len(),
        0 <= q < types@.len(),
        entities_ok(given@, types@.take(p)),
        entities_ok(expected@, types@.take(q)),
    ensures
        yes == all_given(types@, given@, expected@),
    decreases p + q + 2, 0int,
{
    let mut j: usize = 0;
    while j < expected.len()
        invariant
            j <= expected@.len(),
            types_ok(types@),
            0 <= p < types@.len(),
            0 <= q < types@.len(),
            entities_ok(given@, types@.take(p)),
            entities_ok(expected@, types@.take(q)),
            forall|k: int|
                0 <= k < j ==> (lookup(given@, (#[trigger] expected@[k]).0) matches Some(ty)
                    && sub_entity(types@, ty, expected@[k].1)),
        decreases expected@.len() - j,
    {
        let entry = expected.entry(j);
        assert(expected@[j as int] == (entry.name@, entry.value));
        let fits = match given.get(entry.name.as_str()) {
            Some(ty) => {
                proof {
                    lemma_lookup(given@, entry.name@);
                }
                is_sub_entity(types, *ty, entry.value)
            },
            None => false,
        };
        if !fits {
            return false;
        }
        j = j + 1;
    }
    true
}

fn is_sub_type(types: &TypeList, p: usize, q: usize) -> (yes: bool)
    requires
        types_ok(types@),
        p < types@.len(),
        q < types@.len(),
    ensures
        yes == sub_type(types@, p, q),
    decreases p + q + 2, 1int,
{
    assert(types@[p as int].ok(types@.take(p as int)));
    assert(types@[q as int].ok(types@.take(q as int)));
    match (types.get(p), types.get(q)) {
        (DefinedType::Func(a), DefinedType::Func(b)) => same_func_type(a, b),
        (DefinedType::Module(a), DefinedType::Module(b)) => is_sub_module(types, a, b),
        (DefinedType::Component(a), DefinedType::Component(b)) => are_all_given(
            types,
            &a.exports,
            &b.exports,
            Ghost(p as int),
            Ghost(q as int),
        ) && are_all_given(
            types,
            &b.imports,
            &a.imports,
            Ghost(q as int),
            Ghost(p as int),
        ),
        (DefinedType::Instance(a), DefinedType::Instance(b)) => are_all_given(
            types,
            a,
            b,
            Ghost(p as int),
            Ghost(q as int),
        ),
        (DefinedType::ComponentFunc(_), DefinedType::ComponentFunc(_)) => is_sub_func(
            types,
            p,
            q,
        ),
        (DefinedType::Value(a), DefinedType::Value(b)) => is_sub_use(types, *a, *b),
        (DefinedType::Interface(_), DefinedType::Interface(_)) => is_sub_interface(types, p, q),
        _ => false,
    }
}

} // verus!
