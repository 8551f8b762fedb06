//! What can stand for what, in terms of what the two things are.

use super::names::{has_name, lookup, names_once, place_of};
use super::subtypes::{
    entity_rank, is_optional, names_in, provided, provides, sub_core, sub_entity, sub_module,
    sub_primitive, sub_type, sub_use, takes, use_rank,
};
use super::types::{
    entities_ok, is_func_type, types_ok, CaseDef, ComponentDefView, ComponentEntityType,
    DefinedTypeView, EntityType, FuncDefView, InterfaceDefView, ModuleDefView, TypeUse,
};
use crate::reader::component::types::PrimitiveInterfaceType;
use crate::reader::types::{MemoryType, TableType};
use vstd::prelude::*;

verus! {

/// The type of the core function at a place takes and gives the same values as that at another.
pub open spec fn same_signature(types: Seq<DefinedTypeView>, p: usize, q: usize) -> bool {
    match (types[p as int], types[q as int]) {
        (DefinedTypeView::Func(f), DefinedTypeView::Func(g)) => {
            &&& f.params.len() == g.params.len()
            &&& f.returns.len() == g.returns.len()
            &&& forall|i: int| 0 <= i < f.params.len() ==> f.params[i] == #[trigger] g.params[i]
            &&& forall|i: int| 0 <= i < f.returns.len() ==> f.returns[i] == #[trigger] g.returns[i]
        },
        _ => false,
    }
}

/// A table of a type can have a size, at some time.
pub open spec fn table_size(ty: TableType, size: int) -> bool {
    ty.initial <= size && (ty.maximum is None || size <= ty.maximum->0)
}

/// A memory of a type can have a size, at some time.
pub open spec fn memory_size(ty: MemoryType, size: int) -> bool {
    ty.initial <= size && (ty.maximum is None || size <= ty.maximum->0)
}

/// A table can have no size that another can not have.
pub open spec fn table_within(a: TableType, b: TableType) -> bool {
    &&& a.element_type == b.element_type
    &&& forall|size: int| #[trigger] table_size(a, size) ==> table_size(b, size)
}

/// A memory can have no size that another can not have.
pub open spec fn memory_within(a: MemoryType, b: MemoryType) -> bool {
    &&& a.memory64 == b.memory64
    &&& a.shared == b.shared
    &&& forall|size: int| #[trigger] memory_size(a, size) ==> memory_size(b, size)
}

/// Something of a module is of the kind of another, and is used in the same way.
pub open spec fn used_as(types: Seq<DefinedTypeView>, a: EntityType, b: EntityType) -> bool {
    match (a, b) {
        (EntityType::Func(p), EntityType::Func(q)) => same_signature(types, p, q),
        (EntityType::Table(s), EntityType::Table(t)) => table_within(s, t),
        (EntityType::Memory(s), EntityType::Memory(t)) => memory_within(s, t),
        (EntityType::Global(g), EntityType::Global(h)) => {
            g.content_type == h.content_type && g.mutable == h.mutable
        },
        (EntityType::Tag(p), EntityType::Tag(q)) => same_signature(types, p, q),
        _ => false,
    }
}

/// Something of a module can be of some size at all.
pub open spec fn possible(ty: EntityType) -> bool {
    match ty {
        EntityType::Table(t) => t.maximum is Some ==> t.initial <= t.maximum->0,
        EntityType::Memory(m) => m.maximum is Some ==> m.initial <= m.maximum->0,
        _ => true,
    }
}

/// A function stands for another only if both take the same parameters and give the same results.
/// A table or a memory stands for another exactly if it never has a size that the other can not
/// have. A global stands only for one of the same type that can be changed if it can, and nothing
/// stands for something of another kind.
pub proof fn law_core(types: Seq<DefinedTypeView>, a: EntityType, b: EntityType)
    requires
        a.ok(types),
        b.ok(types),
    ensures
        sub_core(types, a, b) ==> used_as(types, a, b),
        possible(a) && used_as(types, a, b) ==> sub_core(types, a, b),
{
    match (a, b) {
        (EntityType::Func(p), EntityType::Func(q)) => lemma_signature(types, p, q),
        (EntityType::Tag(p), EntityType::Tag(q)) => lemma_signature(types, p, q),
        (EntityType::Table(s), EntityType::Table(t)) => {
            if possible(a) {
                assert(table_size(s, s.initial as int));
            }
            if s.maximum is Some {
                assert(possible(a) ==> table_size(s, s.maximum->0 as int));
            } else if t.maximum is Some {
                assert(table_size(s, s.initial + t.maximum->0 + 1));
            }
            if sub_core(types, a, b) {
                assert forall|size: int| #[trigger] table_size(s, size) implies table_size(
                    t,
                    size,
                ) by {}
            } else if s.element_type == t.element_type {
                assert(!table_size(t, s.initial as int) || (t.maximum is Some && (s.maximum is None
                    || !table_size(t, s.maximum->0 as int))));
                assert(t.maximum is Some && s.maximum is None ==> !table_size(
                    t,
                    s.initial + t.maximum->0 + 1,
                ));
            }
        },
        (EntityType::Memory(s), EntityType::Memory(t)) => {
            if possible(a) {
                assert(memory_size(s, s.initial as int));
            }
            if s.maximum is Some {
                assert(possible(a) ==> memory_size(s, s.maximum->0 as int));
            } else if t.maximum is Some {
                assert(memory_size(s, s.initial + t.maximum->0 + 1));
            }
            if sub_core(types, a, b) {
                assert forall|size: int| #[trigger] memory_size(s, size) implies memory_size(
                    t,
                    size,
                ) by {}
            } else if s.memory64 == t.memory64 && s.shared == t.shared {
                assert(!memory_size(t, s.initial as int) || (t.maximum is Some && (s.maximum is None
                    || !memory_size(t, s.maximum->0 as int))));
                assert(t.maximum is Some && s.maximum is None ==> !memory_size(
                    t,
                    s.initial + t.maximum->0 + 1,
                ));
            }
        },
        _ => {},
    }
}

proof fn lemma_signature(types: Seq<DefinedTypeView>, p: usize, q: usize)
    requires
        is_func_type(types, p),
        is_func_type(types, q),
    ensures
        types[p as int]->Func_0 == types[q as int]->Func_0 <==> same_signature(types, p, q),
{
    let f = types[p as int]->Func_0;
    let g = types[q as int]->Func_0;
    if same_signature(types, p, q) {
        assert(f.params =~= g.params);
        assert(f.returns =~= g.returns);
    }
}

/// Everything of a module stands for itself, and what stands for something stands for all that
/// this stands for.
pub proof fn law_core_order(
    types: Seq<DefinedTypeView>,
    a: EntityType,
    b: EntityType,
    c: EntityType,
)
    ensures
        sub_core(types, a, a),
        sub_core(types, a, b) && sub_core(types, b, c) ==> sub_core(types, a, c),
{
}

/// The whole numbers that a value of a primitive type can be.
pub open spec fn numbers(ty: PrimitiveInterfaceType) -> Option<(int, int)> {
    match ty {
        PrimitiveInterfaceType::S8 => Some((i8::MIN as int, i8::MAX as int)),
        PrimitiveInterfaceType::U8 => Some((0, u8::MAX as int)),
        PrimitiveInterfaceType::S16 => Some((i16::MIN as int, i16::MAX as int)),
        PrimitiveInterfaceType::U16 => Some((0, u16::MAX as int)),
        PrimitiveInterfaceType::S32 => Some((i32::MIN as int, i32::MAX as int)),
        PrimitiveInterfaceType::U32 => Some((0, u32::MAX as int)),
        PrimitiveInterfaceType::S64 => Some((i64::MIN as int, i64::MAX as int)),
        PrimitiveInterfaceType::U64 => Some((0, u64::MAX as int)),
        _ => None,
    }
}

/// A type of whole numbers stands for another exactly if each number of the one is one of the
/// other. Everything stands for the type of nothing, a number in single precision for one in double,
/// and otherwise only a type for itself.
pub proof fn law_primitives(a: PrimitiveInterfaceType, b: PrimitiveInterfaceType)
    ensures
        (numbers(a) matches Some(s) ==> numbers(b) matches Some(t) ==> (sub_primitive(a, b)
            <==> t.0 <= s.0 && s.1 <= t.1)),
        numbers(a) is None || numbers(b) is None ==> (sub_primitive(a, b) <==> {
            ||| a == b
            ||| b == PrimitiveInterfaceType::Unit
            ||| a == PrimitiveInterfaceType::Float32 && b == PrimitiveInterfaceType::Float64
        }),
{
}

/// What a type is made of, whether it is written where it is used or stands in the list of types.
pub open spec fn made_of(types: Seq<DefinedTypeView>, ty: TypeUse) -> InterfaceDefView {
    match ty {
        TypeUse::Primitive(p) => InterfaceDefView::Primitive(p),
        TypeUse::Type(place) => types[place as int]->Interface_0,
    }
}

/// The types can be compared.
pub open spec fn comparable(types: Seq<DefinedTypeView>, a: TypeUse, b: TypeUse) -> bool {
    types_ok(types) && a.ok(types) && b.ok(types)
}

/// A type stands for another only if both are made in the same way, and it makes no difference
/// whether a primitive type is named or written out.
pub proof fn law_made_alike(types: Seq<DefinedTypeView>, a: TypeUse, b: TypeUse)
    requires
        comparable(types, a, b),
    ensures
        sub_use(types, a, b) ==> match (made_of(types, a), made_of(types, b)) {
            (InterfaceDefView::Primitive(_), InterfaceDefView::Primitive(_)) => true,
            (InterfaceDefView::Record(_), InterfaceDefView::Record(_)) => true,
            (InterfaceDefView::Variant(_), InterfaceDefView::Variant(_)) => true,
            (InterfaceDefView::List(_), InterfaceDefView::List(_)) => true,
            (InterfaceDefView::Tuple(_), InterfaceDefView::Tuple(_)) => true,
            (InterfaceDefView::Flags(_), InterfaceDefView::Flags(_)) => true,
            (InterfaceDefView::Enum(_), InterfaceDefView::Enum(_)) => true,
            (InterfaceDefView::Union(_), InterfaceDefView::Union(_)) => true,
            (InterfaceDefView::Option(_), InterfaceDefView::Option(_)) => true,
            (InterfaceDefView::Expected { .. }, InterfaceDefView::Expected { .. }) => true,
            _ => false,
        },
        (made_of(types, a) matches InterfaceDefView::Primitive(p) ==> made_of(
            types,
            b,
        ) matches InterfaceDefView::Primitive(q) ==> sub_use(types, a, b) == sub_primitive(p, q)),
{
}

/// A list, an option or an outcome stands for another exactly if what is in the one stands for what
/// is in the other.
pub proof fn law_inner(types: Seq<DefinedTypeView>, a: TypeUse, b: TypeUse)
    requires
        comparable(types, a, b),
    ensures
        (made_of(types, a) matches InterfaceDefView::List(x) ==> made_of(
            types,
            b,
        ) matches InterfaceDefView::List(y) ==> sub_use(types, a, b) == sub_use(types, x, y)),
        (made_of(types, a) matches InterfaceDefView::Option(x) ==> made_of(
            types,
            b,
        ) matches InterfaceDefView::Option(y) ==> sub_use(types, a, b) == sub_use(types, x, y)),
        (made_of(types, a) matches InterfaceDefView::Expected { ok: x, error: e } ==> made_of(
            types,
            b,
        ) matches InterfaceDefView::Expected { ok: y, error: f } ==> sub_use(types, a, b) == (
        sub_use(types, x, y) && sub_use(types, e, f))),
{
}

/// A tuple stands for one that is not longer, part by part. A union stands for one that is not
/// shorter, case by case.
pub proof fn law_rows(types: Seq<DefinedTypeView>, a: TypeUse, b: TypeUse)
    requires
        comparable(types, a, b),
    ensures
        (made_of(types, a) matches InterfaceDefView::Tuple(x) ==> made_of(
            types,
            b,
        ) matches InterfaceDefView::Tuple(y) ==> (sub_use(types, a, b) <==> x.len() >= y.len() && (
        forall|i: int| 0 <= i < y.len() ==> sub_use(types, x[i], #[trigger] y[i])))),
        (made_of(types, a) matches InterfaceDefView::Union(x) ==> made_of(
            types,
            b,
        ) matches InterfaceDefView::Union(y) ==> (sub_use(types, a, b) <==> x.len() <= y.len() && (
        forall|i: int| 0 <= i < x.len() ==> sub_use(types, x[i], #[trigger] y[i])))),
{
    match (made_of(types, a), made_of(types, b)) {
        (InterfaceDefView::Tuple(x), InterfaceDefView::Tuple(y)) => {
            if sub_use(types, a, b) {
                assert forall|i: int| 0 <= i < y.len() implies sub_use(
                    types,
                    x[i],
                    #[trigger] y[i],
                ) by {
                    assert(sub_use(types, x[i], y[i]));
                }
            } else if x.len() >= y.len() {
                let i = choose|i: int| 0 <= i < y.len() && !sub_use(types, #[trigger] x[i], y[i]);
                assert(!sub_use(types, x[i], y[i]));
            }
        },
        (InterfaceDefView::Union(x), InterfaceDefView::Union(y)) => {
            if sub_use(types, a, b) {
                assert forall|i: int| 0 <= i < x.len() implies sub_use(
                    types,
                    x[i],
                    #[trigger] y[i],
                ) by {
                    assert(sub_use(types, x[i], y[i]));
                }
            } else if x.len() <= y.len() {
                let i = choose|i: int| 0 <= i < x.len() && !sub_use(types, #[trigger] x[i], y[i]);
                assert(!sub_use(types, x[i], y[i]));
            }
        },
        _ => {},
    }
}

/// Flags, or the cases of an enumeration, stand for others exactly if each is one of the others.
pub proof fn law_names(types: Seq<DefinedTypeView>, a: TypeUse, b: TypeUse)
    requires
        comparable(types, a, b),
    ensures
        (made_of(types, a) matches InterfaceDefView::Flags(x) ==> made_of(
            types,
            b,
        ) matches InterfaceDefView::Flags(y) ==> (sub_use(types, a, b) <==> among(x, y))),
        (made_of(types, a) matches InterfaceDefView::Enum(x) ==> made_of(
            types,
            b,
        ) matches InterfaceDefView::Enum(y) ==> (sub_use(types, a, b) <==> among(x, y))),
{
    match (made_of(types, a), made_of(types, b)) {
        (InterfaceDefView::Flags(x), InterfaceDefView::Flags(y)) => lemma_among(x, y),
        (InterfaceDefView::Enum(x), InterfaceDefView::Enum(y)) => lemma_among(x, y),
        _ => {},
    }
}

/// Each name of one list is a name of another.
pub open spec fn among<A, B>(a: Seq<(Seq<char>, A)>, b: Seq<(Seq<char>, B)>) -> bool {
    forall|name: Seq<char>| #[trigger] has_name(a, name) ==> has_name(b, name)
}

proof fn lemma_among(a: Seq<(Seq<char>, ())>, b: Seq<(Seq<char>, ())>)
    ensures
        names_in(a, b) <==> among(a, b),
{
    if among(a, b) {
        assert forall|i: int| 0 <= i < a.len() implies has_name(b, (#[trigger] a[i]).0) by {
            assert(has_name(a, a[i].0));
        }
    }
}

/// In a list in which no name comes twice, a name stands for what stands beside it.
pub proof fn law_lookup<V>(list: Seq<(Seq<char>, V)>, i: int)
    requires
        names_once(list),
        0 <= i < list.len(),
    ensures
        lookup(list, list[i].0) == Some(list[i].1),
{
    assert(has_name(list, list[i].0));
    assert(list[place_of(list, list[i].0)].0 == list[i].0);
}

/// A record stands for another exactly if each field of the other is one of its own, of a type that
/// stands for that of the other, or is one that may be missing.
pub proof fn law_records(
    types: Seq<DefinedTypeView>,
    a: TypeUse,
    b: TypeUse,
    x: Seq<(Seq<char>, TypeUse)>,
    y: Seq<(Seq<char>, TypeUse)>,
)
    requires
        comparable(types, a, b),
        made_of(types, a) == InterfaceDefView::Record(x),
        made_of(types, b) == InterfaceDefView::Record(y),
        names_once(x),
    ensures
        sub_use(types, a, b) <==> {
            &&& forall|i: int, j: int|
                0 <= i < x.len() && 0 <= j < y.len() && #[trigger] x[i].0 == #[trigger] y[j].0
                    ==> sub_use(types, x[i].1, y[j].1)
            &&& forall|j: int|
                0 <= j < y.len() ==> has_name(x, #[trigger] y[j].0) || made_of(
                    types,
                    y[j].1,
                ) is Option
        },
{
    assert forall|i: int| 0 <= i < x.len() implies lookup(x, #[trigger] x[i].0) == Some(x[i].1) by {
        law_lookup(x, i);
    }
    if sub_use(types, a, b) {
        assert forall|i: int, j: int|
            0 <= i < x.len() && 0 <= j < y.len() && #[trigger] x[i].0 == #[trigger] y[j].0 implies sub_use(
            types,
            x[i].1,
            y[j].1,
        ) by {
            assert(lookup(x, y[j].0) == Some(x[i].1));
        }
        assert forall|j: int| 0 <= j < y.len() implies has_name(x, #[trigger] y[j].0) || made_of(
            types,
            y[j].1,
        ) is Option by {
            if !has_name(x, y[j].0) {
                assert(lookup(x, y[j].0) is None);
                assert(is_optional(types, y[j].1));
            }
        }
    }
    if (forall|i: int, j: int|
        0 <= i < x.len() && 0 <= j < y.len() && #[trigger] x[i].0 == #[trigger] y[j].0 ==> sub_use(
            types,
            x[i].1,
            y[j].1,
        )) && (forall|j: int|
        0 <= j < y.len() ==> has_name(x, #[trigger] y[j].0) || made_of(types, y[j].1) is Option) {
        assert forall|j: int| 0 <= j < y.len() implies match lookup(x, (#[trigger] y[j]).0) {
            Some(ty) => sub_use(types, ty, y[j].1),
            None => is_optional(types, y[j].1),
        } by {
            if has_name(x, y[j].0) {
                let i = place_of(x, y[j].0);
                assert(x[i].0 == y[j].0);
                assert(sub_use(types, x[i].1, y[j].1));
            } else {
                assert(made_of(types, y[j].1) is Option);
            }
        }
    }
}

/// A variant stands for another exactly if each of its cases is one of the other, of a type that
/// stands for that of the other, or falls back on a case that is one of the other.
pub proof fn law_variants(
    types: Seq<DefinedTypeView>,
    a: TypeUse,
    b: TypeUse,
    x: Seq<(Seq<char>, CaseDef)>,
    y: Seq<(Seq<char>, CaseDef)>,
)
    requires
        comparable(types, a, b),
        made_of(types, a) == InterfaceDefView::Variant(x),
        made_of(types, b) == InterfaceDefView::Variant(y),
        names_once(y),
    ensures
        sub_use(types, a, b) <==> {
            &&& forall|i: int, j: int|
                0 <= i < x.len() && 0 <= j < y.len() && #[trigger] x[i].0 == #[trigger] y[j].0
                    ==> sub_use(types, x[i].1.ty, y[j].1.ty)
            &&& forall|i: int|
                0 <= i < x.len() && !has_name(y, #[trigger] x[i].0) ==> {
                    &&& x[i].1.default_to matches Some(d)
                    &&& d < x.len()
                    &&& has_name(y, x[d as int].0)
                }
        },
{
    assert forall|j: int| 0 <= j < y.len() implies lookup(y, #[trigger] y[j].0) == Some(y[j].1) by {
        law_lookup(y, j);
    }
    if sub_use(types, a, b) {
        assert forall|i: int, j: int|
            0 <= i < x.len() && 0 <= j < y.len() && #[trigger] x[i].0 == #[trigger] y[j].0 implies sub_use(
            types,
            x[i].1.ty,
            y[j].1.ty,
        ) by {
            assert(lookup(y, x[i].0) == Some(y[j].1));
        }
        assert forall|i: int| 0 <= i < x.len() && !has_name(y, #[trigger] x[i].0) implies {
            &&& x[i].1.default_to matches Some(d)
            &&& d < x.len()
            &&& has_name(y, x[d as int].0)
        } by {
            assert(lookup(y, x[i].0) is None);
        }
    } else {
        let i = choose|i: int|
            0 <= i < x.len() && !(match lookup(y, (#[trigger] x[i]).0) {
                Some(case) => sub_use(types, x[i].1.ty, case.ty),
                None => x[i].1.default_to matches Some(d) && d < x.len() && has_name(
                    y,
                    x[d as int].0,
                ),
            });
        if has_name(y, x[i].0) {
            let j = place_of(y, x[i].0);
            assert(x[i].0 == y[j].0);
            assert(!sub_use(types, x[i].1.ty, y[j].1.ty));
        }
    }
}

/// A module stands for another exactly if it exports all that the other exports, each such that it
/// stands for what the other exports, and needs nothing that the other does not need.
pub proof fn law_modules(types: Seq<DefinedTypeView>, a: ModuleDefView, b: ModuleDefView)
    requires
        names_once(a.exports),
    ensures
        sub_module(types, a, b) <==> {
            &&& among(b.exports, a.exports)
            &&& forall|i: int, j: int|
                0 <= i < a.exports.len() && 0 <= j < b.exports.len() && #[trigger] a.exports[i].0
                    == #[trigger] b.exports[j].0 ==> sub_core(
                    types,
                    a.exports[i].1,
                    b.exports[j].1,
                )
            &&& forall|i: int|
                0 <= i < a.imports.len() ==> exists|k: int|
                    0 <= k < b.imports.len() && (#[trigger] b.imports[k]).module == (
                    #[trigger] a.imports[i]).module && b.imports[k].name == a.imports[i].name
                        && sub_core(types, b.imports[k].ty, a.imports[i].ty)
        },
{
    let x = a.exports;
    let y = b.exports;
    assert forall|i: int| 0 <= i < x.len() implies lookup(x, #[trigger] x[i].0) == Some(x[i].1) by {
        law_lookup(x, i);
    }
    if sub_module(types, a, b) {
        assert forall|name: Seq<char>| #[trigger] has_name(y, name) implies has_name(x, name) by {
            let j = place_of(y, name);
            assert(lookup(x, y[j].0) is Some);
        }
        assert forall|i: int, j: int|
            0 <= i < x.len() && 0 <= j < y.len() && #[trigger] x[i].0 == #[trigger] y[j].0 implies sub_core(
            types,
            x[i].1,
            y[j].1,
        ) by {
            assert(lookup(x, y[j].0) == Some(x[i].1));
        }
        assert forall|i: int| 0 <= i < a.imports.len() implies exists|k: int|
            0 <= k < b.imports.len() && (#[trigger] b.imports[k]).module == (
            #[trigger] a.imports[i]).module && b.imports[k].name == a.imports[i].name && sub_core(
                types,
                b.imports[k].ty,
                a.imports[i].ty,
            ) by {
            assert(provided(types, b.imports, a.imports[i]));
            let k = choose|k: int|
                0 <= k < b.imports.len() && provides(
                    types,
                    #[trigger] b.imports[k],
                    a.imports[i],
                );
            assert(b.imports[k].module == a.imports[i].module);
        }
    } else if among(y, x) && (forall|i: int, j: int|
        0 <= i < x.len() && 0 <= j < y.len() && #[trigger] x[i].0 == #[trigger] y[j].0 ==> sub_core(
            types,
            x[i].1,
            y[j].1,
        )) {
        assert forall|j: int| 0 <= j < y.len() implies (lookup(x, (#[trigger] y[j]).0) matches Some(
            ty,
        ) && sub_core(types, ty, y[j].1)) by {
            assert(has_name(y, y[j].0));
            let i = place_of(x, y[j].0);
            assert(x[i].0 == y[j].0);
            assert(sub_core(types, x[i].1, y[j].1));
        }
        let i = choose|i: int|
            0 <= i < a.imports.len() && !provided(
                types,
                b.imports,
                #[trigger] a.imports[i],
            );
        assert forall|k: int| 0 <= k < b.imports.len() implies !((
        #[trigger] b.imports[k]).module == a.imports[i].module && b.imports[k].name
            == a.imports[i].name && sub_core(types, b.imports[k].ty, a.imports[i].ty)) by {
            assert(!provides(types, b.imports[k], a.imports[i]));
        }
    }
}

/// The types of what is imported and exported can be compared.
pub open spec fn both_there(types: Seq<DefinedTypeView>, p: usize, q: usize) -> bool {
    types_ok(types) && p < types.len() && q < types.len()
}

/// Things of a component stand for others only if they are of the same kind, and then exactly if
/// their types do. A value stands for another exactly if its type does.
pub proof fn law_entities(
    types: Seq<DefinedTypeView>,
    a: ComponentEntityType,
    b: ComponentEntityType,
)
    requires
        types_ok(types),
        a.ok(types),
        b.ok(types),
    ensures
        sub_entity(types, a, b) <==> {
            ||| a matches ComponentEntityType::Module(p) && b == ComponentEntityType::Module(
                b->Module_0,
            ) && sub_type(types, p, b->Module_0)
            ||| a matches ComponentEntityType::Component(p) && b == ComponentEntityType::Component(
                b->Component_0,
            ) && sub_type(types, p, b->Component_0)
            ||| a matches ComponentEntityType::Instance(p) && b == ComponentEntityType::Instance(
                b->Instance_0,
            ) && sub_type(types, p, b->Instance_0)
            ||| a matches ComponentEntityType::Func(p) && b == ComponentEntityType::Func(
                b->Func_0,
            ) && sub_type(types, p, b->Func_0)
            ||| a matches ComponentEntityType::Type(p) && b == ComponentEntityType::Type(
                b->Type_0,
            ) && sub_type(types, p, b->Type_0)
            ||| a matches ComponentEntityType::Value(s) && b == ComponentEntityType::Value(
                b->Value_0,
            ) && sub_use(types, s, b->Value_0)
        },
{
}

/// The type of a core function is that of another only if both take the same parameters and give
/// the same results.
pub proof fn law_core_functions(types: Seq<DefinedTypeView>, p: usize, q: usize)
    requires
        both_there(types, p, q),
        is_func_type(types, p),
        is_func_type(types, q),
    ensures
        sub_type(types, p, q) <==> same_signature(types, p, q),
{
    lemma_signature(types, p, q);
}

/// A component function stands for another exactly if its result stands for that of the other, what
/// the other is given stands for its own parameter of the same name in the same place, and what the
/// other is not given may be missing.
pub proof fn law_functions(
    types: Seq<DefinedTypeView>,
    p: usize,
    q: usize,
    f: FuncDefView,
    g: FuncDefView,
)
    requires
        both_there(types, p, q),
        types[p as int] == DefinedTypeView::ComponentFunc(f),
        types[q as int] == DefinedTypeView::ComponentFunc(g),
    ensures
        sub_type(types, p, q) <==> {
            &&& sub_use(types, f.result, g.result)
            &&& forall|i: int|
                0 <= i < f.params.len() && i < g.params.len() ==> f.params[i].name
                    == #[trigger] g.params[i].name && sub_use(
                    types,
                    g.params[i].ty,
                    f.params[i].ty,
                )
            &&& forall|i: int|
                g.params.len() <= i < f.params.len() ==> made_of(
                    types,
                    #[trigger] f.params[i].ty,
                ) is Option
        },
{
    if sub_type(types, p, q) {
        assert forall|i: int| 0 <= i < f.params.len() && i < g.params.len() implies f.params[i].name
            == #[trigger] g.params[i].name && sub_use(types, g.params[i].ty, f.params[i].ty) by {
            assert(takes(types, f.params[i], g.params, i));
        }
        assert forall|i: int| g.params.len() <= i < f.params.len() implies made_of(
            types,
            #[trigger] f.params[i].ty,
        ) is Option by {
            assert(takes(types, f.params[i], g.params, i));
        }
    } else if sub_use(types, f.result, g.result) {
        let i = choose|i: int|
            0 <= i < f.params.len() && !takes(types, #[trigger] f.params[i], g.params, i);
        if i < g.params.len() {
            assert(f.params[i].name != g.params[i].name || !sub_use(
                types,
                g.params[i].ty,
                f.params[i].ty,
            ));
        } else {
            assert(!is_optional(types, f.params[i].ty));
        }
    }
}

/// What is under the names of one list stands for what is under the same names of another.
pub open spec fn stands_under_names(
    types: Seq<DefinedTypeView>,
    a: Seq<(Seq<char>, ComponentEntityType)>,
    b: Seq<(Seq<char>, ComponentEntityType)>,
) -> bool {
    &&& among(b, a)
    &&& forall|i: int, j: int|
        0 <= i < a.len() && 0 <= j < b.len() && #[trigger] a[i].0 == #[trigger] b[j].0
            ==> sub_entity(types, a[i].1, b[j].1)
}

proof fn lemma_under_names(
    types: Seq<DefinedTypeView>,
    a: Seq<(Seq<char>, ComponentEntityType)>,
    b: Seq<(Seq<char>, ComponentEntityType)>,
)
    requires
        names_once(a),
    ensures
        stands_under_names(types, a, b) <==> (forall|j: int|
            0 <= j < b.len() ==> (lookup(a, (#[trigger] b[j]).0) matches Some(ty) && sub_entity(
                types,
                ty,
                b[j].1,
            ))),
{
    assert forall|i: int| 0 <= i < a.len() implies lookup(a, #[trigger] a[i].0) == Some(a[i].1) by {
        law_lookup(a, i);
    }
    if stands_under_names(types, a, b) {
        assert forall|j: int| 0 <= j < b.len() implies (lookup(a, (#[trigger] b[j]).0) matches Some(
            ty,
        ) && sub_entity(types, ty, b[j].1)) by {
            assert(has_name(b, b[j].0));
            let i = place_of(a, b[j].0);
            assert(a[i].0 == b[j].0);
            assert(sub_entity(types, a[i].1, b[j].1));
        }
    }
    if (forall|j: int|
        0 <= j < b.len() ==> (lookup(a, (#[trigger] b[j]).0) matches Some(ty) && sub_entity(
            types,
            ty,
            b[j].1,
        ))) {
        assert forall|name: Seq<char>| #[trigger] has_name(b, name) implies has_name(a, name) by {
            let j = place_of(b, name);
            assert(lookup(a, b[j].0) is Some);
        }
        assert forall|i: int, j: int|
            0 <= i < a.len() && 0 <= j < b.len() && #[trigger] a[i].0 == #[trigger] b[j].0 implies sub_entity(
            types,
            a[i].1,
            b[j].1,
        ) by {
            assert(lookup(a, b[j].0) == Some(a[i].1));
        }
    }
}

/// An instance stands for another exactly if it exports all that the other exports, each such that
/// it stands for what the other exports.
pub proof fn law_instances(
    types: Seq<DefinedTypeView>,
    p: usize,
    q: usize,
    a: Seq<(Seq<char>, ComponentEntityType)>,
    b: Seq<(Seq<char>, ComponentEntityType)>,
)
    requires
        both_there(types, p, q),
        types[p as int] == DefinedTypeView::Instance(a),
        types[q as int] == DefinedTypeView::Instance(b),
        names_once(a),
    ensures
        sub_type(types, p, q) <==> stands_under_names(types, a, b),
{
    lemma_under_names(types, a, b);
}

/// A component stands for another exactly if it exports all that the other exports, and the other
/// is given all that it needs itself.
pub proof fn law_components(
    types: Seq<DefinedTypeView>,
    p: usize,
    q: usize,
    a: ComponentDefView,
    b: ComponentDefView,
)
    requires
        both_there(types, p, q),
        types[p as int] == DefinedTypeView::Component(a),
        types[q as int] == DefinedTypeView::Component(b),
        names_once(a.exports),
        names_once(b.imports),
    ensures
        sub_type(types, p, q) <==> stands_under_names(types, a.exports, b.exports)
            && stands_under_names(types, b.imports, a.imports),
{
    lemma_under_names(types, a.exports, b.exports);
    lemma_under_names(types, b.imports, a.imports);
}

/// Types of different kinds do not stand for each other, and types of modules, of values and of
/// what values are made of stand for each other as these do.
pub proof fn law_type_kinds(types: Seq<DefinedTypeView>, p: usize, q: usize)
    requires
        both_there(types, p, q),
    ensures
        sub_type(types, p, q) ==> match (types[p as int], types[q as int]) {
            (DefinedTypeView::Func(_), DefinedTypeView::Func(_)) => true,
            (DefinedTypeView::Module(a), DefinedTypeView::Module(b)) => true,
            (DefinedTypeView::Component(_), DefinedTypeView::Component(_)) => true,
            (DefinedTypeView::Instance(_), DefinedTypeView::Instance(_)) => true,
            (DefinedTypeView::ComponentFunc(_), DefinedTypeView::ComponentFunc(_)) => true,
            (DefinedTypeView::Value(_), DefinedTypeView::Value(_)) => true,
            (DefinedTypeView::Interface(_), DefinedTypeView::Interface(_)) => true,
            _ => false,
        },
        (types[p as int] matches DefinedTypeView::Module(a) ==> types[q as int] matches DefinedTypeView::Module(
            b,
        ) ==> sub_type(types, p, q) == sub_module(types, a, b)),
        (types[p as int] matches DefinedTypeView::Value(a) ==> types[q as int] matches DefinedTypeView::Value(
            b,
        ) ==> sub_type(types, p, q) == sub_use(types, a, b)),
        types[p as int] is Interface && types[q as int] is Interface ==> sub_type(types, p, q)
            == sub_use(types, TypeUse::Type(p), TypeUse::Type(q)),
{
}

/// In no type of a list of types does a name come twice where names are told apart.
pub open spec fn no_name_twice(types: Seq<DefinedTypeView>) -> bool {
    forall|i: int|
        0 <= i < types.len() ==> match #[trigger] types[i] {
            DefinedTypeView::Interface(InterfaceDefView::Record(fields)) => names_once(fields),
            DefinedTypeView::Interface(InterfaceDefView::Variant(cases)) => names_once(cases),
            DefinedTypeView::Module(ty) => names_once(ty.exports),
            DefinedTypeView::Component(ty) => names_once(ty.imports) && names_once(ty.exports),
            DefinedTypeView::Instance(exports) => names_once(exports),
            _ => true,
        }
}

/// A value stands for itself.
pub proof fn law_value_for_itself(types: Seq<DefinedTypeView>, ty: TypeUse)
    requires
        types_ok(types),
        no_name_twice(types),
        ty.ok(types),
    ensures
        sub_use(types, ty, ty),
    decreases use_rank(ty),
{
    if let TypeUse::Type(p) = ty {
        let def = types[p as int]->Interface_0;
        let front = types.take(p as int);
        assert(types[p as int].ok(front));
        match def {
            InterfaceDefView::Record(fields) => {
                assert forall|j: int| 0 <= j < fields.len() implies match lookup(
                    fields,
                    (#[trigger] fields[j]).0,
                ) {
                    Some(part) => sub_use(types, part, fields[j].1),
                    None => is_optional(types, fields[j].1),
                } by {
                    law_lookup(fields, j);
                    assert(fields[j].1.ok(front));
                    law_value_for_itself(types, fields[j].1);
                }
            },
            InterfaceDefView::Variant(cases) => {
                assert forall|i: int| 0 <= i < cases.len() implies match lookup(
                    cases,
                    (#[trigger] cases[i]).0,
                ) {
                    Some(case) => sub_use(types, cases[i].1.ty, case.ty),
                    None => false,
                } by {
                    law_lookup(cases, i);
                    assert(cases[i].1.ty.ok(front));
                    law_value_for_itself(types, cases[i].1.ty);
                }
            },
            InterfaceDefView::List(part) => law_value_for_itself(types, part),
            InterfaceDefView::Option(part) => law_value_for_itself(types, part),
            InterfaceDefView::Expected { ok, error } => {
                law_value_for_itself(types, ok);
                law_value_for_itself(types, error);
            },
            InterfaceDefView::Tuple(list) => {
                assert forall|i: int| 0 <= i < list.len() implies sub_use(
                    types,
                    #[trigger] list[i],
                    list[i],
                ) by {
                    assert(list[i].ok(front));
                    law_value_for_itself(types, list[i]);
                }
            },
            InterfaceDefView::Union(list) => {
                assert forall|i: int| 0 <= i < list.len() implies sub_use(
                    types,
                    #[trigger] list[i],
                    list[i],
                ) by {
                    assert(list[i].ok(front));
                    law_value_for_itself(types, list[i]);
                }
            },
            _ => {},
        }
    }
}

/// Something of a component stands for itself, unless it is an instance of a module.
pub proof fn law_entity_for_itself(types: Seq<DefinedTypeView>, ty: ComponentEntityType)
    requires
        types_ok(types),
        no_name_twice(types),
        ty.ok(types),
        ty matches ComponentEntityType::Type(p) ==> !(types[p as int] is ModuleInstance),
        nothing_names_module_instances(types),
    ensures
        sub_entity(types, ty, ty),
    decreases entity_rank(ty), 1int,
{
    match ty {
        ComponentEntityType::Value(ty) => law_value_for_itself(types, ty),
        ComponentEntityType::Module(p) => law_type_for_itself(types, p),
        ComponentEntityType::Component(p) => law_type_for_itself(types, p),
        ComponentEntityType::Instance(p) => law_type_for_itself(types, p),
        ComponentEntityType::Func(p) => law_type_for_itself(types, p),
        ComponentEntityType::Type(p) => law_type_for_itself(types, p),
    }
}

/// No import and no export is the type of an instance of a module.
pub open spec fn nothing_names_module_instances(types: Seq<DefinedTypeView>) -> bool {
    forall|i: int|
        0 <= i < types.len() ==> match #[trigger] types[i] {
            DefinedTypeView::Component(ty) => no_module_instances(types, ty.imports)
                && no_module_instances(types, ty.exports),
            DefinedTypeView::Instance(exports) => no_module_instances(types, exports),
            _ => true,
        }
}

/// Nothing in a list is the type of an instance of a module.
pub open spec fn no_module_instances(
    types: Seq<DefinedTypeView>,
    list: Seq<(Seq<char>, ComponentEntityType)>,
) -> bool {
    forall|i: int|
        0 <= i < list.len() ==> ((#[trigger] list[i]).1 matches ComponentEntityType::Type(p) ==> !(
        types[p as int] is ModuleInstance))
}

/// A type stands for itself, unless it is that of an instance of a module.
pub proof fn law_type_for_itself(types: Seq<DefinedTypeView>, p: usize)
    requires
        types_ok(types),
        no_name_twice(types),
        nothing_names_module_instances(types),
        p < types.len(),
        !(types[p as int] is ModuleInstance),
    ensures
        sub_type(types, p, p),
    decreases p + 1, 0int,
{
    assert(types[p as int].ok(types.take(p as int)));
    match types[p as int] {
        DefinedTypeView::Module(ty) => {
            assert forall|j: int| 0 <= j < ty.exports.len() implies (lookup(
                ty.exports,
                (#[trigger] ty.exports[j]).0,
            ) matches Some(e) && sub_core(types, e, ty.exports[j].1)) by {
                law_lookup(ty.exports, j);
            }
            assert forall|i: int| 0 <= i < ty.imports.len() implies provided(
                types,
                ty.imports,
                #[trigger] ty.imports[i],
            ) by {
                assert(provides(types, ty.imports[i], ty.imports[i]));
            }
        },
        DefinedTypeView::Component(ty) => {
            lemma_list_for_itself(types, ty.imports, p);
            lemma_list_for_itself(types, ty.exports, p);
        },
        DefinedTypeView::Instance(exports) => lemma_list_for_itself(types, exports, p),
        DefinedTypeView::ComponentFunc(f) => {
            law_value_for_itself(types, f.result);
            assert forall|i: int| 0 <= i < f.params.len() implies takes(
                types,
                #[trigger] f.params[i],
                f.params,
                i,
            ) by {
                assert(f.params[i].ty.ok(types.take(p as int)));
                law_value_for_itself(types, f.params[i].ty);
            }
        },
        DefinedTypeView::Value(ty) => law_value_for_itself(types, ty),
        DefinedTypeView::Interface(_) => law_value_for_itself(types, TypeUse::Type(p)),
        _ => {},
    }
}

proof fn lemma_list_for_itself(
    types: Seq<DefinedTypeView>,
    list: Seq<(Seq<char>, ComponentEntityType)>,
    p: usize,
)
    requires
        types_ok(types),
        no_name_twice(types),
        nothing_names_module_instances(types),
        p < types.len(),
        names_once(list),
        no_module_instances(types, list),
        entities_ok(list, types.take(p as int)),
    ensures
        forall|j: int|
            0 <= j < list.len() ==> (lookup(list, (#[trigger] list[j]).0) matches Some(ty)
                && sub_entity(types, ty, list[j].1)),
    decreases p, 2int,
{
    assert forall|j: int| 0 <= j < list.len() implies (lookup(
        list,
        (#[trigger] list[j]).0,
    ) matches Some(ty) && sub_entity(types, ty, list[j].1)) by {
        law_lookup(list, j);
        assert(list[j].1.ok(types.take(p as int)));
        law_entity_for_itself(types, list[j].1);
    }
}

} // verus!
