//! What the imports, exports, aliases and the start of a component do.

use super::component::ComponentView;
use super::component_laws::{exports_of, law_thing, module_instance, thing, used};
use super::names::{names_once, place_of};
use super::subtype_laws::law_lookup;
use super::subtypes::sub_use;
use super::types::{
    is_component_func_type, is_instance_type, ComponentDefView, ComponentEntityType,
    DefinedTypeView, EntityType, ModuleDefView, ParamDefView, TypeUse,
};
use super::{State, ValidatorView};
use crate::reader::component::exports::ComponentExportView;
use crate::reader::component::items::{AliasKind, AliasView};
use crate::reader::component::types::{ComponentImportView, PrimitiveInterfaceType};
use vstd::prelude::*;

verus! {

/// What an import of a type is.
pub open spec fn import_kind(types: Seq<DefinedTypeView>, place: usize) -> ComponentEntityType {
    let ty = types[place as int];
    if ty is Module {
        ComponentEntityType::Module(place)
    } else if ty is Component {
        ComponentEntityType::Component(place)
    } else if ty is Instance {
        ComponentEntityType::Instance(place)
    } else if ty is ComponentFunc {
        ComponentEntityType::Func(place)
    } else if ty is Value {
        ComponentEntityType::Value(ty->Value_0)
    } else {
        ComponentEntityType::Type(place)
    }
}

/// How many of a kind a component has, and can have.
pub open spec fn how_many(c: ComponentView, ty: ComponentEntityType) -> (nat, nat) {
    match ty {
        ComponentEntityType::Module(_) => (c.modules.len(), 1_000),
        ComponentEntityType::Component(_) => (c.components.len(), 1_000),
        ComponentEntityType::Instance(_) => (c.instances.len(), 1_000),
        ComponentEntityType::Func(_) => (c.functions.len(), 1_000_000),
        ComponentEntityType::Value(_) => (c.values.len(), 1_000),
        ComponentEntityType::Type(_) => (c.types.len(), 1_000_000),
    }
}

/// A component has one thing more than another, behind those of its kind, and a value has not been
/// used; all else is the same.
pub open spec fn one_more(c: ComponentView, after: ComponentView, ty: ComponentEntityType) -> bool {
    match ty {
        ComponentEntityType::Module(place) => {
            &&& after.modules == c.modules.push(place)
            &&& after == (ComponentView { modules: after.modules, ..c })
        },
        ComponentEntityType::Component(place) => {
            &&& after.components == c.components.push(place)
            &&& after == (ComponentView { components: after.components, ..c })
        },
        ComponentEntityType::Instance(place) => {
            &&& after.instances == c.instances.push(place)
            &&& after == (ComponentView { instances: after.instances, ..c })
        },
        ComponentEntityType::Func(place) => {
            &&& after.functions == c.functions.push(place)
            &&& after == (ComponentView { functions: after.functions, ..c })
        },
        ComponentEntityType::Value(ty) => {
            &&& after.values == c.values.push((ty, false))
            &&& after == (ComponentView { values: after.values, ..c })
        },
        ComponentEntityType::Type(place) => {
            &&& after.types == c.types.push(place)
            &&& after == (ComponentView { types: after.types, ..c })
        },
    }
}

/// An import is accepted exactly if there is a type with its index, no import has its name yet, and
/// there can be one more of its kind. What is imported can then be named by the next index of its
/// kind.
pub proof fn law_component_import(
    c: ComponentView,
    types: Seq<DefinedTypeView>,
    import: ComponentImportView,
    offset: int,
)
    ensures
        ({
            let (after, result) = c.add_import(types, import, offset);
            let ty = import_kind(types, c.types[import.ty as int]);
            &&& result is Ok <==> {
                &&& import.ty < c.types.len()
                &&& forall|i: int| 0 <= i < c.imports.len() ==> #[trigger] c.imports[i].0 != import.name
                &&& how_many(c, ty).0 < how_many(c, ty).1
            }
            &&& result is Ok ==> {
                &&& one_more(c, (ComponentView { imports: c.imports, ..after }), ty)
                &&& after.imports == c.imports.push((import.name, ty))
            }
        }),
{
}

/// An export is accepted exactly if it is there, is no value that has been used, and no export has
/// its name yet. It then stands behind the exports under its name.
pub proof fn law_component_export(
    c: ComponentView,
    types: Seq<DefinedTypeView>,
    export: ComponentExportView,
    offset: int,
)
    requires
        c.wf(types),
    ensures
        ({
            let (after, result) = c.export(types, export, offset);
            &&& result is Ok <==> {
                &&& thing(c, types, export.kind) is Some
                &&& !used(c, export.kind)
                &&& forall|i: int| 0 <= i < c.exports.len() ==> #[trigger] c.exports[i].0 != export.name
            }
            &&& result is Ok ==> {
                &&& after.exports == c.exports.push(
                    (export.name, thing(c, types, export.kind)->0),
                )
                &&& after == (ComponentView { exports: after.exports, values: after.values, ..c })
            }
        }),
{
    law_thing(c, types, export.kind, offset);
}

/// The kind of something of a component.
pub open spec fn kind_of(ty: ComponentEntityType) -> Option<AliasKind> {
    match ty {
        ComponentEntityType::Module(_) => Some(AliasKind::Module),
        ComponentEntityType::Component(_) => Some(AliasKind::Component),
        ComponentEntityType::Instance(_) => Some(AliasKind::Instance),
        ComponentEntityType::Func(_) => Some(AliasKind::ComponentFunc),
        ComponentEntityType::Value(_) => Some(AliasKind::Value),
        ComponentEntityType::Type(_) => None,
    }
}

/// The kind of something of a module.
pub open spec fn core_kind_of(ty: EntityType) -> AliasKind {
    match ty {
        EntityType::Func(_) => AliasKind::Func,
        EntityType::Table(_) => AliasKind::Table,
        EntityType::Memory(_) => AliasKind::Memory,
        EntityType::Global(_) => AliasKind::Global,
        EntityType::Tag(_) => AliasKind::Tag,
    }
}

/// An alias for an export of an instance of a component is accepted exactly if the instance exports
/// something of the kind of the alias under its name, and there can be one more of that kind. What
/// is exported can then be named by the next index of its kind.
pub proof fn law_alias(
    c: ComponentView,
    types: Seq<DefinedTypeView>,
    kind: AliasKind,
    instance: u32,
    name: Seq<char>,
    outer: Seq<ComponentView>,
    offset: int,
)
    requires
        c.wf(types),
        kind == AliasKind::Module || kind == AliasKind::Component || kind == AliasKind::Instance
            || kind == AliasKind::ComponentFunc || kind == AliasKind::Value,
        instance < c.instances.len() && is_instance_type(types, c.instances[instance as int])
            ==> names_once(types[c.instances[instance as int] as int]->Instance_0),
    ensures
        ({
            let (after, result) = c.add_alias(
                outer,
                types,
                AliasView::InstanceExport { kind, instance, name },
                offset,
            );
            let exports = types[c.instances[instance as int] as int]->Instance_0;
            let fits = |j: int|
                0 <= j < exports.len() && exports[j].0 == name && kind_of(exports[j].1) == Some(kind)
                    && how_many(c, exports[j].1).0 < how_many(c, exports[j].1).1;
            &&& result is Ok <==> {
                &&& instance < c.instances.len()
                &&& is_instance_type(types, c.instances[instance as int])
                &&& exists|j: int| #[trigger] fits(j)
            }
            &&& result is Ok ==> exists|j: int|
                #[trigger] fits(j) && one_more(c, after, exports[j].1)
            &&& result is Err ==> after == c
        }),
{
    let (after, result) = c.add_alias(
        outer,
        types,
        AliasView::InstanceExport { kind, instance, name },
        offset,
    );
    if instance < c.instances.len() && is_instance_type(types, c.instances[instance as int]) {
        let exports = types[c.instances[instance as int] as int]->Instance_0;
        let fits = |j: int|
            0 <= j < exports.len() && exports[j].0 == name && kind_of(exports[j].1) == Some(kind)
                && how_many(c, exports[j].1).0 < how_many(c, exports[j].1).1;
        if result is Ok {
            let j = place_of(exports, name);
            assert(exports[j].0 == name);
            assert(fits(j));
        }
        if exists|j: int| #[trigger] fits(j) {
            let j = choose|j: int| #[trigger] fits(j);
            law_lookup(exports, j);
        }
    }
}

/// A component has one thing of a module more than another, behind those of its kind; all else is
/// the same.
pub open spec fn one_more_core(c: ComponentView, after: ComponentView, ty: EntityType) -> bool {
    match ty {
        EntityType::Func(place) => {
            &&& after.functions == c.functions.push(place)
            &&& after == (ComponentView { functions: after.functions, ..c })
            &&& after.functions.len() <= 1_000_000
        },
        EntityType::Table(ty) => {
            &&& after.tables == c.tables.push(ty)
            &&& after == (ComponentView { tables: after.tables, ..c })
            &&& after.tables.len() <= 100
        },
        EntityType::Memory(ty) => {
            &&& after.memories == c.memories.push(ty)
            &&& after == (ComponentView { memories: after.memories, ..c })
            &&& after.memories.len() <= 100
        },
        EntityType::Global(ty) => {
            &&& after.globals == c.globals.push(ty)
            &&& after == (ComponentView { globals: after.globals, ..c })
            &&& after.globals.len() <= 1_000_000
        },
        EntityType::Tag(place) => {
            &&& after.tags == c.tags.push(place)
            &&& after == (ComponentView { tags: after.tags, ..c })
            &&& after.tags.len() <= 1_000_000
        },
    }
}

/// How many of a kind of things of modules a component has, and can have.
pub open spec fn how_many_core(c: ComponentView, ty: EntityType) -> (nat, nat) {
    match ty {
        EntityType::Func(_) => (c.functions.len(), 1_000_000),
        EntityType::Table(_) => (c.tables.len(), 100),
        EntityType::Memory(_) => (c.memories.len(), 100),
        EntityType::Global(_) => (c.globals.len(), 1_000_000),
        EntityType::Tag(_) => (c.tags.len(), 1_000_000),
    }
}

/// An alias for an export of an instance of a module is accepted exactly if the instance exports
/// something of the kind of the alias under its name, and there can be one more of that kind. What
/// is exported can then be named by the next index of its kind.
pub proof fn law_core_alias(
    c: ComponentView,
    types: Seq<DefinedTypeView>,
    kind: AliasKind,
    instance: u32,
    name: Seq<char>,
    outer: Seq<ComponentView>,
    offset: int,
)
    requires
        c.wf(types),
        kind == AliasKind::Func || kind == AliasKind::Table || kind == AliasKind::Memory || kind
            == AliasKind::Global || kind == AliasKind::Tag,
        module_instance(c, types, instance) ==> names_once(exports_of(c, types, instance)),
    ensures
        ({
            let (after, result) = c.add_alias(
                outer,
                types,
                AliasView::InstanceExport { kind, instance, name },
                offset,
            );
            let exports = exports_of(c, types, instance);
            let fits = |j: int|
                0 <= j < exports.len() && exports[j].0 == name && core_kind_of(exports[j].1) == kind
                    && how_many_core(c, exports[j].1).0 < how_many_core(c, exports[j].1).1;
            &&& result is Ok <==> {
                &&& module_instance(c, types, instance)
                &&& exists|j: int| #[trigger] fits(j)
            }
            &&& result is Ok ==> exists|j: int|
                #[trigger] fits(j) && one_more_core(c, after, exports[j].1)
            &&& result is Err ==> after == c
        }),
{
    let (after, result) = c.add_alias(
        outer,
        types,
        AliasView::InstanceExport { kind, instance, name },
        offset,
    );
    if module_instance(c, types, instance) {
        let exports = exports_of(c, types, instance);
        let fits = |j: int|
            0 <= j < exports.len() && exports[j].0 == name && core_kind_of(exports[j].1) == kind
                && how_many_core(c, exports[j].1).0 < how_many_core(c, exports[j].1).1;
        if result is Ok {
            let j = place_of(exports, name);
            assert(exports[j].0 == name);
            assert(fits(j));
        }
        if exists|j: int| #[trigger] fits(j) {
            let j = choose|j: int| #[trigger] fits(j);
            law_lookup(exports, j);
        }
    }
}

/// The component that is some components further out: none further is the component itself, one
/// further is the one that it stands in.
pub open spec fn out_by(c: ComponentView, outer: Seq<ComponentView>, count: int) -> ComponentView {
    outer.push(c)[outer.len() - count]
}

/// An alias for something further out is accepted exactly if there is a component that far out, it
/// has something of the kind with the index, and there can be one more of that kind here. That can
/// then be named by the next index of its kind.
pub proof fn law_outer_alias(
    c: ComponentView,
    types: Seq<DefinedTypeView>,
    outer: Seq<ComponentView>,
    count: u32,
    index: u32,
    offset: int,
)
    ensures
        ({
            let (after, result) = c.add_alias(
                outer,
                types,
                AliasView::OuterModule { count, index },
                offset,
            );
            let far = out_by(c, outer, count as int);
            &&& result is Ok <==> count <= outer.len() && index < far.modules.len()
                && c.modules.len() < 1_000
            &&& result is Ok ==> one_more(
                c,
                after,
                ComponentEntityType::Module(far.modules[index as int]),
            )
            &&& result is Err ==> after == c
        }),
        ({
            let (after, result) = c.add_alias(
                outer,
                types,
                AliasView::OuterComponent { count, index },
                offset,
            );
            let far = out_by(c, outer, count as int);
            &&& result is Ok <==> count <= outer.len() && index < far.components.len()
                && c.components.len() < 1_000
            &&& result is Ok ==> one_more(
                c,
                after,
                ComponentEntityType::Component(far.components[index as int]),
            )
            &&& result is Err ==> after == c
        }),
        ({
            let (after, result) = c.add_alias(
                outer,
                types,
                AliasView::OuterType { count, index },
                offset,
            );
            let far = out_by(c, outer, count as int);
            &&& result is Ok <==> count <= outer.len() && index < far.types.len() && c.types.len()
                < 1_000_000
            &&& result is Ok ==> one_more(
                c,
                after,
                ComponentEntityType::Type(far.types[index as int]),
            )
            &&& result is Err ==> after == c
        }),
{
}

/// The arguments from the `i`th on are values that are there, have not been used, are not given
/// twice, and can stand for the parameters.
pub open spec fn good_arguments(
    c: ComponentView,
    types: Seq<DefinedTypeView>,
    params: Seq<ParamDefView>,
    args: Seq<u32>,
    i: int,
) -> bool {
    &&& forall|k: int|
        i <= k < args.len() ==> (#[trigger] args[k]) < c.values.len() && !c.values[args[k] as int].1
            && sub_use(types, c.values[args[k] as int].0, params[k].ty)
    &&& forall|k: int, l: int| i <= k < l < args.len() ==> #[trigger] args[k] != #[trigger] args[l]
}

/// The values that are given from the `i`th on have been used, and no others.
pub open spec fn given_up(
    c: ComponentView,
    after: ComponentView,
    args: Seq<u32>,
    i: int,
) -> bool {
    &&& after == (ComponentView { values: after.values, ..c })
    &&& after.values.len() == c.values.len()
    &&& forall|n: int| 0 <= n < c.values.len() ==> (#[trigger] after.values[n]).0 == c.values[n].0
    &&& forall|n: int|
        0 <= n < c.values.len() ==> ((#[trigger] after.values[n]).1 <==> c.values[n].1
            || exists|k: int| i <= k < args.len() && #[trigger] args[k] == n)
}

proof fn lemma_arguments(
    c: ComponentView,
    types: Seq<DefinedTypeView>,
    params: Seq<ParamDefView>,
    args: Seq<u32>,
    i: int,
    offset: int,
)
    requires
        0 <= i <= args.len(),
    ensures
        ({
            let (after, result) = c.start_arguments(types, params, args, i, offset);
            &&& result is Ok <==> good_arguments(c, types, params, args, i)
            &&& result is Ok ==> given_up(c, after, args, i)
        }),
    decreases args.len() - i,
{
    if i < args.len() {
        let (next, result) = c.value_at(args[i], offset);
        if result is Ok && sub_use(types, result->Ok_0, params[i].ty) {
            lemma_arguments(next, types, params, args, i + 1, offset);
            let (after, last) = next.start_arguments(types, params, args, i + 1, offset);
            assert forall|n: int| 0 <= n < c.values.len() implies (#[trigger] next.values[n]).0
                == c.values[n].0 && (next.values[n].1 <==> c.values[n].1 || args[i] == n) by {}
            if good_arguments(next, types, params, args, i + 1) {
                assert forall|k: int| i <= k < args.len() implies (#[trigger] args[k])
                    < c.values.len() && !c.values[args[k] as int].1 && sub_use(
                    types,
                    c.values[args[k] as int].0,
                    params[k].ty,
                ) by {
                    if k > i {
                        assert(!next.values[args[k] as int].1);
                    }
                }
                assert forall|k: int, l: int| i <= k < l < args.len() implies #[trigger] args[k]
                    != #[trigger] args[l] by {
                    if k == i {
                        assert(!next.values[args[l] as int].1);
                    }
                }
                assert forall|n: int| 0 <= n < c.values.len() implies (#[trigger] after.values[n]).0
                    == c.values[n].0 by {
                    assert(next.values[n].0 == c.values[n].0);
                }
                assert forall|n: int| 0 <= n < c.values.len() implies ((
                #[trigger] after.values[n]).1 <==> c.values[n].1 || exists|k: int|
                    i <= k < args.len() && #[trigger] args[k] == n) by {
                    assert(next.values[n].1 <==> c.values[n].1 || args[i] == n);
                }
            }
            if good_arguments(c, types, params, args, i) {
                assert forall|k: int| i + 1 <= k < args.len() implies (#[trigger] args[k])
                    < next.values.len() && !next.values[args[k] as int].1 && sub_use(
                    types,
                    next.values[args[k] as int].0,
                    params[k].ty,
                ) by {
                    assert(args[i] != args[k]);
                }
            }
        } else {
            assert(!good_arguments(c, types, params, args, i)) by {
                let a = args[i];
            }
        }
    }
}

/// A start is accepted exactly if there was none before, it names a component function, there is one
/// argument for each parameter, and the arguments are different values that have not been used and
/// can stand for the parameters. The arguments are used up, and what the function gives is a new
/// value, unless it gives nothing.
pub proof fn law_component_start(
    c: ComponentView,
    types: Seq<DefinedTypeView>,
    func_index: u32,
    args: Seq<u32>,
    offset: int,
)
    requires
        c.wf(types),
    ensures
        ({
            let (after, result) = c.add_start(types, func_index, args, offset);
            let func = types[c.functions[func_index as int] as int]->ComponentFunc_0;
            let gives = func.result != TypeUse::Primitive(PrimitiveInterfaceType::Unit);
            &&& result is Ok <==> {
                &&& !c.has_start
                &&& func_index < c.functions.len()
                &&& is_component_func_type(types, c.functions[func_index as int])
                &&& args.len() == func.params.len()
                &&& good_arguments(c, types, func.params, args, 0)
            }
            &&& result is Ok ==> {
                &&& after.has_start
                &&& after.values.len() == c.values.len() + if gives {
                    1int
                } else {
                    0int
                }
                &&& gives ==> after.values.last() == (func.result, false)
                &&& given_up(
                    c,
                    (ComponentView {
                        has_start: false,
                        values: after.values.take(c.values.len() as int),
                        ..after
                    }),
                    args,
                    0,
                )
            }
        }),
{
    if !c.has_start && func_index < c.functions.len() && is_component_func_type(
        types,
        c.functions[func_index as int],
    ) {
        let func = types[c.functions[func_index as int] as int]->ComponentFunc_0;
        if args.len() == func.params.len() {
            lemma_arguments(c, types, func.params, args, 0, offset);
            let (next, result) = c.start_arguments(types, func.params, args, 0, offset);
            if result is Ok {
                let (after, _) = c.add_start(types, func_index, args, offset);
                assert(after.values.take(c.values.len() as int) =~= next.values);
            }
        }
    }
}

/// The end of a module in a component is accepted only if the module does not import the same twice.
/// The component then has one more module, whose type is what the module imports and exports, and
/// goes on where it was.
pub proof fn law_nested_module(v: ValidatorView, offset: int)
    requires
        v.wf(),
        v.state == State::Module,
        v.components.len() > 0,
        v.end(offset).1 is Ok,
        v.types.len() <= usize::MAX,
    ensures
        ({
            let (w, _) = v.end(offset);
            let module = v.module->0.module;
            let before = v.components.last();
            let behind = w.components.last();
            &&& w.state == State::Component
            &&& w.module is None
            &&& w.components.len() == v.components.len()
            &&& forall|i: int|
                0 <= i < v.components.len() - 1 ==> w.components[i] == #[trigger] v.components[i]
            &&& one_more(before, behind, ComponentEntityType::Module(v.types.len() as usize))
            &&& w.types == v.types.push(
                DefinedTypeView::Module(
                    ModuleDefView { imports: module.imports, exports: module.exports },
                ),
            )
            &&& forall|i: int, j: int|
                0 <= i < j < module.imports.len() ==> (#[trigger] module.imports[i]).module != (
                #[trigger] module.imports[j]).module || module.imports[i].name
                    != module.imports[j].name
        }),
{
}

/// At the end of a component in a component, the outer component has one more component, whose type
/// is what the inner one imports and exports, and goes on where it was.
pub proof fn law_nested_component(v: ValidatorView, offset: int)
    requires
        v.wf(),
        v.state == State::Component,
        v.components.len() > 1,
    ensures
        ({
            let (w, result) = v.end(offset);
            let inner = v.components.last();
            let before = v.components[v.components.len() - 2];
            let behind = w.components.last();
            &&& result is Ok
            &&& w.state == State::Component
            &&& w.components.len() == v.components.len() - 1
            &&& forall|i: int|
                0 <= i < v.components.len() - 2 ==> w.components[i] == #[trigger] v.components[i]
            &&& one_more(before, behind, ComponentEntityType::Component(v.types.len() as usize))
            &&& w.types == v.types.push(
                DefinedTypeView::Component(
                    ComponentDefView { imports: inner.imports, exports: inner.exports },
                ),
            )
        }),
{
}

/// After the end of what stands in no component, there is nothing more.
pub proof fn law_outermost(v: ValidatorView, offset: int)
    requires
        v.wf(),
        v.end(offset).1 is Ok,
        v.components.len() + (if v.state == State::Module {
            1int
        } else {
            0int
        }) <= 1,
    ensures
        v.end(offset).0.state == State::End,
        v.end(offset).0.components.len() == 0,
        v.end(offset).0.types == v.types,
{
}

} // verus!
