//! What the types that a component defines are.

use super::component::{entity_of, ComponentView};
use super::component_laws::Moment;
use super::component_types::name_set;
use super::entity_laws::import_kind;
use super::features::WasmFeatures;
use super::names::{has_name, place_of};
use super::types::{
    CaseDef, ComponentDefView, DefinedTypeView, InterfaceDefView, ParamDefView, TypeUse,
};
use crate::reader::component::types::{
    ComponentFuncTypeView, ComponentParamView, ComponentTypeDefView, ComponentTypeView,
    InterfaceTypeRef, InterfaceTypeView, RecordFieldView, VariantCaseView,
};
use vstd::prelude::*;

verus! {

/// A type that is used is there: it is primitive, or the index is that of an interface type.
pub open spec fn usable(
    c: ComponentView,
    types: Seq<DefinedTypeView>,
    ty: InterfaceTypeRef,
) -> bool {
    ty matches InterfaceTypeRef::Type(i) ==> i < c.types.len()
        && types[c.types[i as int] as int] is Interface
}

/// The type that is used.
pub open spec fn use_of(c: ComponentView, ty: InterfaceTypeRef) -> TypeUse {
    match ty {
        InterfaceTypeRef::Primitive(p) => TypeUse::Primitive(p),
        InterfaceTypeRef::Type(i) => TypeUse::Type(c.types[i as int]),
    }
}

/// All types of a list are there.
pub open spec fn all_usable(
    c: ComponentView,
    types: Seq<DefinedTypeView>,
    list: Seq<InterfaceTypeRef>,
) -> bool {
    forall|i: int| 0 <= i < list.len() ==> usable(c, types, #[trigger] list[i])
}

/// A list of types that are used is what it stands for.
pub open spec fn uses_of(
    c: ComponentView,
    list: Seq<InterfaceTypeRef>,
    uses: Seq<TypeUse>,
) -> bool {
    &&& uses.len() == list.len()
    &&& forall|i: int| 0 <= i < list.len() ==> #[trigger] uses[i] == use_of(c, list[i])
}

/// A type can be used exactly if it is there, and then it is the one with the index.
pub proof fn law_use(
    c: ComponentView,
    types: Seq<DefinedTypeView>,
    ty: InterfaceTypeRef,
    offset: int,
)
    ensures
        c.resolve(types, ty, offset) is Ok <==> usable(c, types, ty),
        c.resolve(types, ty, offset) matches Ok(found) ==> found == use_of(c, ty),
{
}

proof fn lemma_uses(
    c: ComponentView,
    types: Seq<DefinedTypeView>,
    list: Seq<InterfaceTypeRef>,
    i: int,
    acc: Seq<TypeUse>,
    offset: int,
)
    requires
        0 <= i <= list.len(),
        acc.len() == i,
        forall|k: int| 0 <= k < i ==> usable(c, types, #[trigger] list[k]),
        forall|k: int| 0 <= k < i ==> #[trigger] acc[k] == use_of(c, list[k]),
    ensures
        c.resolve_list(types, list, i, acc, offset) is Ok <==> all_usable(c, types, list),
        c.resolve_list(types, list, i, acc, offset) matches Ok(uses) ==> uses_of(c, list, uses),
    decreases list.len() - i,
{
    if i < list.len() {
        law_use(c, types, list[i], offset);
        if let Ok(ty) = c.resolve(types, list[i], offset) {
            lemma_uses(c, types, list, i + 1, acc.push(ty), offset);
        }
    }
}

/// The names are not empty, and none comes twice.
pub open spec fn good_names(names: Seq<Seq<char>>) -> bool {
    &&& forall|i: int| 0 <= i < names.len() ==> (#[trigger] names[i]).len() > 0
    &&& forall|i: int, j: int| 0 <= i < j < names.len() ==> #[trigger] names[i] != #[trigger] names[j]
}

proof fn lemma_names(
    names: Seq<Seq<char>>,
    i: int,
    acc: Seq<(Seq<char>, ())>,
    what: &'static str,
    duplicate: &'static str,
    offset: int,
)
    requires
        0 <= i <= names.len(),
        acc.len() == i,
        forall|k: int| 0 <= k < i ==> (#[trigger] acc[k]).0 == names[k],
        forall|k: int| 0 <= k < i ==> (#[trigger] names[k]).len() > 0,
        forall|k: int, l: int| 0 <= k < l < i ==> #[trigger] names[k] != #[trigger] names[l],
    ensures
        name_set(names, i, acc, what, duplicate, offset) is Ok <==> good_names(names),
        name_set(names, i, acc, what, duplicate, offset) matches Ok(list) ==> {
            &&& list.len() == names.len()
            &&& forall|k: int| 0 <= k < names.len() ==> (#[trigger] list[k]).0 == names[k]
        },
    decreases names.len() - i,
{
    if i < names.len() {
        let name = names[i];
        if name.len() > 0 {
            if has_name(acc, name) {
                let k = place_of(acc, name);
                assert(acc[k].0 == names[k]);
                assert(names[k] == names[i]);
            } else {
                let next = acc.push((name, ()));
                assert forall|k: int| 0 <= k < i + 1 implies (#[trigger] next[k]).0 == names[k] by {
                    if k < i {
                        assert(next[k] == acc[k]);
                    }
                }
                assert forall|k: int, l: int| 0 <= k < l < i + 1 implies #[trigger] names[k]
                    != #[trigger] names[l] by {
                    if l == i {
                        assert(acc[k].0 == names[k]);
                    }
                }
                lemma_names(names, i + 1, next, what, duplicate, offset);
            }
        } else {
            assert(!good_names(names)) by {
                assert(names[i].len() == 0);
            }
        }
    }
}

/// The fields of a record have names that are not empty, none of which comes twice, and types that
/// are there.
pub open spec fn good_fields(
    c: ComponentView,
    types: Seq<DefinedTypeView>,
    fields: Seq<RecordFieldView>,
) -> bool {
    &&& forall|i: int|
        0 <= i < fields.len() ==> (#[trigger] fields[i]).name.len() > 0 && usable(
            c,
            types,
            fields[i].ty,
        )
    &&& forall|i: int, j: int|
        0 <= i < j < fields.len() ==> (#[trigger] fields[i]).name != (#[trigger] fields[j]).name
}

proof fn lemma_fields(
    c: ComponentView,
    types: Seq<DefinedTypeView>,
    fields: Seq<RecordFieldView>,
    i: int,
    acc: Seq<(Seq<char>, TypeUse)>,
    offset: int,
)
    requires
        0 <= i <= fields.len(),
        acc.len() == i,
        forall|k: int|
            0 <= k < i ==> #[trigger] acc[k] == (fields[k].name, use_of(c, fields[k].ty)),
        forall|k: int|
            0 <= k < i ==> (#[trigger] fields[k]).name.len() > 0 && usable(c, types, fields[k].ty),
        forall|k: int, l: int|
            0 <= k < l < i ==> (#[trigger] fields[k]).name != (#[trigger] fields[l]).name,
    ensures
        c.fields(types, fields, i, acc, offset) is Ok <==> good_fields(c, types, fields),
        c.fields(types, fields, i, acc, offset) matches Ok(list) ==> {
            &&& list.len() == fields.len()
            &&& forall|k: int|
                0 <= k < fields.len() ==> #[trigger] list[k] == (
                    fields[k].name,
                    use_of(c, fields[k].ty),
                )
        },
    decreases fields.len() - i,
{
    if i < fields.len() {
        let field = fields[i];
        law_use(c, types, field.ty, offset);
        if field.name.len() > 0 && usable(c, types, field.ty) {
            if has_name(acc, field.name) {
                let k = place_of(acc, field.name);
                assert(acc[k].0 == fields[k].name);
                assert(fields[k].name == fields[i].name);
            } else {
                let next = acc.push((field.name, use_of(c, field.ty)));
                assert forall|k: int, l: int| 0 <= k < l < i + 1 implies (#[trigger] fields[k]).name
                    != (#[trigger] fields[l]).name by {
                    if l == i {
                        assert(acc[k].0 == fields[k].name);
                    }
                }
                lemma_fields(c, types, fields, i + 1, next, offset);
            }
        } else {
            assert(!good_fields(c, types, fields)) by {
                let f = fields[i];
            }
        }
    }
}

/// The cases of a variant have names that are not empty, none of which comes twice, types that are
/// there, and fall back only on cases that are there.
pub open spec fn good_cases(
    c: ComponentView,
    types: Seq<DefinedTypeView>,
    cases: Seq<VariantCaseView>,
) -> bool {
    &&& forall|i: int|
        0 <= i < cases.len() ==> (#[trigger] cases[i]).name.len() > 0 && usable(
            c,
            types,
            cases[i].ty,
        ) && (cases[i].default_to matches Some(d) ==> d < cases.len())
    &&& forall|i: int, j: int|
        0 <= i < j < cases.len() ==> (#[trigger] cases[i]).name != (#[trigger] cases[j]).name
}

/// What a case of a variant stands for.
pub open spec fn case_of(c: ComponentView, case: VariantCaseView) -> (Seq<char>, CaseDef) {
    (case.name, CaseDef { ty: use_of(c, case.ty), default_to: case.default_to })
}

proof fn lemma_cases(
    c: ComponentView,
    types: Seq<DefinedTypeView>,
    cases: Seq<VariantCaseView>,
    i: int,
    acc: Seq<(Seq<char>, CaseDef)>,
    offset: int,
)
    requires
        0 <= i <= cases.len(),
        acc.len() == i,
        forall|k: int| 0 <= k < i ==> #[trigger] acc[k] == case_of(c, cases[k]),
        forall|k: int|
            0 <= k < i ==> (#[trigger] cases[k]).name.len() > 0 && usable(c, types, cases[k].ty) && (
            cases[k].default_to matches Some(d) ==> d < cases.len()),
        forall|k: int, l: int|
            0 <= k < l < i ==> (#[trigger] cases[k]).name != (#[trigger] cases[l]).name,
    ensures
        c.cases(types, cases, i, acc, offset) is Ok <==> good_cases(c, types, cases),
        c.cases(types, cases, i, acc, offset) matches Ok(list) ==> {
            &&& list.len() == cases.len()
            &&& forall|k: int| 0 <= k < cases.len() ==> #[trigger] list[k] == case_of(c, cases[k])
        },
    decreases cases.len() - i,
{
    if i < cases.len() {
        let case = cases[i];
        law_use(c, types, case.ty, offset);
        if case.name.len() > 0 && usable(c, types, case.ty) && (case.default_to matches Some(d)
            ==> d < cases.len()) {
            if has_name(acc, case.name) {
                let k = place_of(acc, case.name);
                assert(acc[k].0 == cases[k].name);
                assert(cases[k].name == cases[i].name);
            } else {
                let next = acc.push(case_of(c, case));
                assert forall|k: int, l: int| 0 <= k < l < i + 1 implies (#[trigger] cases[k]).name
                    != (#[trigger] cases[l]).name by {
                    if l == i {
                        assert(acc[k].0 == cases[k].name);
                    }
                }
                lemma_cases(c, types, cases, i + 1, next, offset);
            }
        } else {
            assert(!good_cases(c, types, cases)) by {
                let f = cases[i];
            }
        }
    }
}

/// What an interface type needs: types that are there, names that are not empty and do not come
/// twice, and, where there is a choice, something to choose from.
pub open spec fn good_interface(
    c: ComponentView,
    types: Seq<DefinedTypeView>,
    ty: InterfaceTypeView,
) -> bool {
    match ty {
        InterfaceTypeView::Primitive(_) => true,
        InterfaceTypeView::Record(fields) => good_fields(c, types, fields),
        InterfaceTypeView::Variant(cases) => cases.len() > 0 && good_cases(c, types, cases),
        InterfaceTypeView::List(part) => usable(c, types, part),
        InterfaceTypeView::Tuple(list) => all_usable(c, types, list),
        InterfaceTypeView::Flags(names) => good_names(names),
        InterfaceTypeView::Enum(names) => names.len() > 0 && good_names(names),
        InterfaceTypeView::Union(list) => list.len() > 0 && all_usable(c, types, list),
        InterfaceTypeView::Option(part) => usable(c, types, part),
        InterfaceTypeView::Expected { ok, error } => usable(c, types, ok) && usable(
            c,
            types,
            error,
        ),
    }
}

/// An interface type is what is written, part by part.
pub open spec fn written_as(c: ComponentView, ty: InterfaceTypeView, def: InterfaceDefView) -> bool {
    match (ty, def) {
        (InterfaceTypeView::Primitive(p), InterfaceDefView::Primitive(q)) => p == q,
        (InterfaceTypeView::Record(fields), InterfaceDefView::Record(list)) => {
            &&& list.len() == fields.len()
            &&& forall|k: int|
                0 <= k < fields.len() ==> #[trigger] list[k] == (
                    fields[k].name,
                    use_of(c, fields[k].ty),
                )
        },
        (InterfaceTypeView::Variant(cases), InterfaceDefView::Variant(list)) => {
            &&& list.len() == cases.len()
            &&& forall|k: int| 0 <= k < cases.len() ==> #[trigger] list[k] == case_of(c, cases[k])
        },
        (InterfaceTypeView::List(part), InterfaceDefView::List(used)) => used == use_of(c, part),
        (InterfaceTypeView::Tuple(list), InterfaceDefView::Tuple(uses)) => uses_of(c, list, uses),
        (InterfaceTypeView::Flags(names), InterfaceDefView::Flags(list)) => {
            &&& list.len() == names.len()
            &&& forall|k: int| 0 <= k < names.len() ==> (#[trigger] list[k]).0 == names[k]
        },
        (InterfaceTypeView::Enum(names), InterfaceDefView::Enum(list)) => {
            &&& list.len() == names.len()
            &&& forall|k: int| 0 <= k < names.len() ==> (#[trigger] list[k]).0 == names[k]
        },
        (InterfaceTypeView::Union(list), InterfaceDefView::Union(uses)) => uses_of(c, list, uses),
        (InterfaceTypeView::Option(part), InterfaceDefView::Option(used)) => used == use_of(
            c,
            part,
        ),
        (
            InterfaceTypeView::Expected { ok, error },
            InterfaceDefView::Expected { ok: x, error: y },
        ) => x == use_of(c, ok) && y == use_of(c, error),
        _ => false,
    }
}

/// An interface type is accepted exactly if it has what it needs, and it is then what is written.
pub proof fn law_interface_type(
    c: ComponentView,
    types: Seq<DefinedTypeView>,
    ty: InterfaceTypeView,
    offset: int,
)
    ensures
        c.interface_def(types, ty, offset) is Ok <==> good_interface(c, types, ty),
        c.interface_def(types, ty, offset) matches Ok(def) ==> written_as(c, ty, def),
{
    match ty {
        InterfaceTypeView::Record(fields) => {
            lemma_fields(c, types, fields, 0, Seq::empty(), offset);
        },
        InterfaceTypeView::Variant(cases) => {
            lemma_cases(c, types, cases, 0, Seq::empty(), offset);
        },
        InterfaceTypeView::Tuple(list) => {
            lemma_uses(c, types, list, 0, Seq::empty(), offset);
        },
        InterfaceTypeView::Union(list) => {
            lemma_uses(c, types, list, 0, Seq::empty(), offset);
        },
        InterfaceTypeView::Flags(names) => {
            lemma_names(names, 0, Seq::empty(), "flag", "duplicate flag name", offset);
        },
        InterfaceTypeView::Enum(names) => {
            lemma_names(names, 0, Seq::empty(), "enum tag", "duplicate enum tag name", offset);
        },
        _ => {},
    }
}

/// The parameters of a function have types that are there, and no name that is empty.
pub open spec fn good_params(
    c: ComponentView,
    types: Seq<DefinedTypeView>,
    params: Seq<ComponentParamView>,
) -> bool {
    forall|i: int|
        0 <= i < params.len() ==> usable(c, types, (#[trigger] params[i]).ty) && (
        params[i].name matches Some(name) ==> name.len() > 0)
}

proof fn lemma_params(
    c: ComponentView,
    types: Seq<DefinedTypeView>,
    params: Seq<ComponentParamView>,
    i: int,
    acc: Seq<ParamDefView>,
    offset: int,
)
    requires
        0 <= i <= params.len(),
        acc.len() == i,
        forall|k: int|
            0 <= k < i ==> usable(c, types, (#[trigger] params[k]).ty) && (
            params[k].name matches Some(name) ==> name.len() > 0),
        forall|k: int|
            0 <= k < i ==> #[trigger] acc[k] == (ParamDefView {
                name: params[k].name,
                ty: use_of(c, params[k].ty),
            }),
    ensures
        c.params(types, params, i, acc, offset) is Ok <==> good_params(c, types, params),
        c.params(types, params, i, acc, offset) matches Ok(list) ==> {
            &&& list.len() == params.len()
            &&& forall|k: int|
                0 <= k < params.len() ==> #[trigger] list[k] == (ParamDefView {
                    name: params[k].name,
                    ty: use_of(c, params[k].ty),
                })
        },
    decreases params.len() - i,
{
    if i < params.len() {
        let param = params[i];
        law_use(c, types, param.ty, offset);
        if usable(c, types, param.ty) && (param.name matches Some(name) ==> name.len() > 0) {
            let next = acc.push(ParamDefView { name: param.name, ty: use_of(c, param.ty) });
            lemma_params(c, types, params, i + 1, next, offset);
        } else {
            assert(!good_params(c, types, params)) by {
                let p = params[i];
            }
        }
    }
}

/// A type of a component function is accepted exactly if all that it takes and gives is there, and no
/// name is empty. It takes and gives what is written, in order.
pub proof fn law_component_function_type(
    c: ComponentView,
    types: Seq<DefinedTypeView>,
    ty: ComponentFuncTypeView,
    offset: int,
)
    ensures
        c.func_def(types, ty, offset) is Ok <==> good_params(c, types, ty.params) && usable(
            c,
            types,
            ty.result,
        ),
        c.func_def(types, ty, offset) matches Ok(func) ==> {
            &&& func.result == use_of(c, ty.result)
            &&& func.params.len() == ty.params.len()
            &&& forall|k: int|
                0 <= k < ty.params.len() ==> #[trigger] func.params[k] == (ParamDefView {
                    name: ty.params[k].name,
                    ty: use_of(c, ty.params[k].ty),
                })
        },
{
    lemma_params(c, types, ty.params, 0, Seq::empty(), offset);
}

/// A type that is added is the last of the types, and can be named by the next index. What it is
/// depends on what is written: for a component or an instance, on what is declared in it.
pub proof fn law_component_type(
    c: ComponentView,
    outer: Seq<ComponentView>,
    types: Seq<DefinedTypeView>,
    def: ComponentTypeDefView,
    features: WasmFeatures,
    offset: int,
)
    requires
        c.add_type(outer, types, def, features, offset).2 is Ok,
    ensures
        ({
            let (after, more, _) = c.add_type(outer, types, def, features, offset);
            let ty = more.last();
            &&& more.len() > 0
            &&& after == (ComponentView { types: c.types.push((more.len() - 1) as usize), ..c })
            &&& match def {
                ComponentTypeDefView::Function(f) => {
                    &&& more.drop_last() == types
                    &&& ty is ComponentFunc
                    &&& good_params(c, types, f.params) && usable(c, types, f.result)
                },
                ComponentTypeDefView::Value(u) => {
                    &&& more.drop_last() == types
                    &&& ty == DefinedTypeView::Value(use_of(c, u))
                    &&& usable(c, types, u)
                },
                ComponentTypeDefView::Interface(i) => {
                    &&& more.drop_last() == types
                    &&& ty is Interface
                    &&& good_interface(c, types, i) && written_as(c, i, ty->Interface_0)
                },
                ComponentTypeDefView::Module(_) => ty is Module,
                ComponentTypeDefView::Component(_) => ty is Component,
                ComponentTypeDefView::Instance(_) => ty is Instance,
            }
        }),
{
    let (t, r) = c.define(outer, types, def, features, offset);
    assert(t.push(r->Ok_0).drop_last() =~= t);
    match def {
        ComponentTypeDefView::Function(f) => law_component_function_type(c, types, f, offset),
        ComponentTypeDefView::Interface(i) => law_interface_type(c, types, i, offset),
        ComponentTypeDefView::Value(u) => law_use(c, types, u, offset),
        _ => {},
    }
}

/// A declaration in the type of a component or of an instance is accepted and leads from one moment to
/// the next: a type is added, one from further out is taken over, something is exported under a name
/// that no export has yet, or something is imported.
#[verifier::opaque]
pub open spec fn declares(
    outer: Seq<ComponentView>,
    features: WasmFeatures,
    offset: int,
    decl: ComponentTypeView,
    before: Moment,
    behind: Moment,
) -> bool {
    let c = before.component;
    let d = behind.component;
    match decl {
        ComponentTypeView::Type(def) => {
            let (after, more, result) = c.add_type(outer, before.types, def, features, offset);
            result is Ok && d == after && behind.types == more
        },
        ComponentTypeView::OuterType { count, index } => {
            let far = outer.push(c)[outer.len() - count];
            &&& count <= outer.len()
            &&& index < far.types.len()
            &&& d == (ComponentView { types: c.types.push(far.types[index as int]), ..c })
            &&& behind.types == before.types
        },
        ComponentTypeView::Export { name, ty } => {
            &&& ty < c.types.len()
            &&& !has_name(c.exports, name)
            &&& d == (ComponentView {
                exports: c.exports.push((name, import_kind(before.types, c.types[ty as int]))),
                ..c
            })
            &&& behind.types == before.types
        },
        ComponentTypeView::Import(import) => {
            &&& c.add_import(before.types, import, offset).1 is Ok
            &&& d == c.add_import(before.types, import, offset).0
            &&& behind.types == before.types
        },
    }
}

#[verifier::rlimit(40)]
proof fn lemma_declaration(
    c: ComponentView,
    outer: Seq<ComponentView>,
    types: Seq<DefinedTypeView>,
    decls: Seq<ComponentTypeView>,
    i: int,
    features: WasmFeatures,
    offset: int,
) -> (next: Moment)
    requires
        0 <= i < decls.len(),
        c.declare(outer, types, decls, i, features, offset).2 is Ok,
    ensures
        declares(outer, features, offset, decls[i], (Moment { component: c, types }), next),
        c.declare(outer, types, decls, i, features, offset) == next.component.declare(
            outer,
            next.types,
            decls,
            i + 1,
            features,
            offset,
        ),
{
    reveal(declares);
    match decls[i] {
        ComponentTypeView::Type(def) => {
            let (after, more, _) = c.add_type(outer, types, def, features, offset);
            Moment { component: after, types: more }
        },
        ComponentTypeView::OuterType { count, index } => Moment {
            component: c.alias_type(outer, count, index, offset).0,
            types,
        },
        ComponentTypeView::Export { name, ty } => Moment {
            component: c.add_export(name, entity_of(types, c.types[ty as int]), offset).0,
            types,
        },
        ComponentTypeView::Import(import) => Moment {
            component: c.add_import(types, import, offset).0,
            types,
        },
    }
}

/// What is accepted from the `i`th declaration on, up to the last moment.
spec fn declared_from(
    outer: Seq<ComponentView>,
    features: WasmFeatures,
    offset: int,
    decls: Seq<ComponentTypeView>,
    i: int,
    moments: Seq<Moment>,
) -> bool {
    &&& moments.len() == decls.len() - i + 1
    &&& forall|k: int|
        0 <= k < decls.len() - i ==> declares(
            outer,
            features,
            offset,
            decls[i + k],
            #[trigger] moments[k],
            moments[k + 1],
        )
}

proof fn lemma_one_earlier(
    outer: Seq<ComponentView>,
    features: WasmFeatures,
    offset: int,
    decls: Seq<ComponentTypeView>,
    i: int,
    now: Moment,
    later: Seq<Moment>,
)
    requires
        0 <= i < decls.len(),
        declared_from(outer, features, offset, decls, i + 1, later),
        declares(outer, features, offset, decls[i], now, later[0]),
    ensures
        declared_from(outer, features, offset, decls, i, seq![now] + later),
{
    let moments = seq![now] + later;
    assert forall|k: int| 0 <= k < decls.len() - i implies declares(
        outer,
        features,
        offset,
        decls[i + k],
        #[trigger] moments[k],
        moments[k + 1],
    ) by {
        assert(moments[k + 1] == later[k]);
        if k > 0 {
            assert(moments[k] == later[k - 1]);
            assert(decls[i + k] == decls[(i + 1) + (k - 1)]);
        }
    }
}

proof fn lemma_declared(
    c: ComponentView,
    outer: Seq<ComponentView>,
    types: Seq<DefinedTypeView>,
    decls: Seq<ComponentTypeView>,
    i: int,
    features: WasmFeatures,
    offset: int,
) -> (moments: Seq<Moment>)
    requires
        0 <= i <= decls.len(),
        c.declare(outer, types, decls, i, features, offset).2 is Ok,
    ensures
        declared_from(outer, features, offset, decls, i, moments),
        moments[0] == (Moment { component: c, types }),
        ({
            let (after, more, _) = c.declare(outer, types, decls, i, features, offset);
            moments.last() == (Moment { component: after, types: more })
        }),
    decreases decls.len() - i,
{
    let now = Moment { component: c, types };
    if i >= decls.len() {
        seq![now]
    } else {
        let next = lemma_declaration(c, outer, types, decls, i, features, offset);
        let later = lemma_declared(
            next.component,
            outer,
            next.types,
            decls,
            i + 1,
            features,
            offset,
        );
        lemma_one_earlier(outer, features, offset, decls, i, now, later);
        seq![now] + later
    }
}

/// The type of a component is what is imported and exported once all that is written in it has been
/// declared, one behind the other, from nothing on. That of an instance is what is then exported.
pub proof fn law_declared_types(
    c: ComponentView,
    outer: Seq<ComponentView>,
    types: Seq<DefinedTypeView>,
    decls: Seq<ComponentTypeView>,
    features: WasmFeatures,
    offset: int,
)
    ensures
        ({
            let def = ComponentTypeDefView::Component(decls);
            let (_, more, result) = c.add_type(outer, types, def, features, offset);
            result is Ok ==> exists|moments: Seq<Moment>|
                #[trigger] all_declared(outer.push(c), features, offset, decls, types, moments) && (
                more.last() == DefinedTypeView::Component(
                    ComponentDefView {
                        imports: moments.last().component.imports,
                        exports: moments.last().component.exports,
                    },
                )) && more.drop_last() == moments.last().types
        }),
        ({
            let def = ComponentTypeDefView::Instance(decls);
            let (_, more, result) = c.add_type(outer, types, def, features, offset);
            result is Ok ==> exists|moments: Seq<Moment>|
                #[trigger] all_declared(outer.push(c), features, offset, decls, types, moments) && (
                more.last() == DefinedTypeView::Instance(moments.last().component.exports))
                    && more.drop_last() == moments.last().types
        }),
{
    let empty = ComponentView::empty();
    if empty.declare(outer.push(c), types, decls, 0, features, offset).2 is Ok {
        let moments = lemma_declared(empty, outer.push(c), types, decls, 0, features, offset);
        assert(all_declared(outer.push(c), features, offset, decls, types, moments)) by {
            assert forall|k: int| 0 <= k < decls.len() implies declares(
                outer.push(c),
                features,
                offset,
                decls[k],
                #[trigger] moments[k],
                moments[k + 1],
            ) by {
                assert(decls[0 + k] == decls[k]);
            }
        }
        let t = moments.last().types;
        let first = c.define(
            outer,
            types,
            ComponentTypeDefView::Component(decls),
            features,
            offset,
        );
        let second = c.define(
            outer,
            types,
            ComponentTypeDefView::Instance(decls),
            features,
            offset,
        );
        assert(t.push(first.1->Ok_0).drop_last() =~= t);
        assert(t.push(second.1->Ok_0).drop_last() =~= t);
    }
}

/// All declarations are accepted, one behind the other, from nothing on.
pub open spec fn all_declared(
    outer: Seq<ComponentView>,
    features: WasmFeatures,
    offset: int,
    decls: Seq<ComponentTypeView>,
    types: Seq<DefinedTypeView>,
    moments: Seq<Moment>,
) -> bool {
    &&& moments.len() == decls.len() + 1
    &&& moments[0] == (Moment { component: ComponentView::empty(), types })
    &&& forall|k: int|
        0 <= k < decls.len() ==> declares(
            outer,
            features,
            offset,
            decls[k],
            #[trigger] moments[k],
            moments[k + 1],
        )
}

} // verus!
