//! What the parts of a component do.

use super::component::{is_any_instance, is_module_instance_type, ComponentView};
use super::component_instances::{
    component_imports_given, lemma_component_longer, module_imports_given,
};
use super::component_sections::ComponentSection;
use super::features::WasmFeatures;
use super::names::{has_name, lookup, names_once, place_of};
use super::section_laws::read;
use super::subtype_laws::{law_core, possible, same_signature, used_as};
use super::subtypes::{sub_core, sub_entity};
use super::types::{
    is_component_func_type, is_func_type, is_instance_type, lemma_starts_with_both,
    lemma_types_ok_push, starts_with, types_ok, ComponentEntityType, DefinedTypeView, EntityType,
    ModuleImportView,
};
use super::{around, component_items, State, ValidatorView};
use crate::parser::{PayloadView, SectionKind};
use crate::reader::component::exports::ComponentExportView;
use crate::reader::component::items::{ComponentArgKind, InstanceView, ModuleArgView};
use crate::reader::sections::{InstanceSectionReader, SectionReader, SectionView};
use crate::reader::types::{ExportView, ExternalKind};
use vstd::prelude::*;

verus! {

/// The component and the types at one time of the validation of a section.
pub struct Moment {
    /// The component.
    pub component: ComponentView,
    /// The types.
    pub types: Seq<DefinedTypeView>,
}

/// Moments follow each other, one item of a section after the other; each is accepted.
pub open spec fn story<T: ComponentSection>(
    outer: Seq<ComponentView>,
    features: WasmFeatures,
    section: SectionView,
    moments: Seq<Moment>,
) -> bool {
    let items = read::<T>(section, section.count as nat).0;
    &&& items.len() == section.count
    &&& moments.len() == section.count + 1
    &&& forall|i: int|
        #![trigger moments[i]]
        #![trigger items[i]]
        0 <= i < section.count ==> step::<T>(outer, features, items[i], moments[i], moments[i + 1])
}

/// An item of a section is accepted and leads from one moment to the next.
pub open spec fn step<T: ComponentSection>(
    outer: Seq<ComponentView>,
    features: WasmFeatures,
    item: <T::Item as View>::V,
    before: Moment,
    behind: Moment,
) -> bool {
    exists|offset: int|
        {
            let (c, ts, r) = #[trigger] T::added(
                outer,
                before.component,
                before.types,
                features,
                item,
                offset,
            );
            r is Ok && behind.component == c && behind.types == ts
        }
}

proof fn lemma_story<T: ComponentSection>(
    outer: Seq<ComponentView>,
    current: ComponentView,
    types: Seq<DefinedTypeView>,
    features: WasmFeatures,
    section: SectionView,
    n: nat,
) -> (moments: Seq<Moment>)
    requires
        component_items::<T>(outer, current, types, features, section, n).2 is Ok,
    ensures
        ({
            let (after, more, _) = component_items::<T>(
                outer,
                current,
                types,
                features,
                section,
                n,
            );
            let (items, end) = read::<T>(section, n);
            &&& items.len() == n
            &&& end.pos >= end.bytes.len()
            &&& moments.len() == n + 1
            &&& moments[0].component == current && moments[0].types == types
            &&& moments[n as int].component == after && moments[n as int].types == more
            &&& forall|i: int|
                0 <= i < n ==> step::<T>(
                    outer,
                    features,
                    items[i],
                    #[trigger] moments[i],
                    moments[i + 1],
                )
        }),
    decreases n,
{
    let now = Moment { component: current, types };
    let (items, end) = read::<T>(section, n);
    if n == 0 {
        seq![now]
    } else {
        let (c, r) = T::parse_item(section.forbid_bulk_memory, section.cursor);
        let item = r->Ok_0;
        let offset = section.cursor.offset();
        let (after, more, _) = T::added(outer, current, types, features, item, offset);
        let later = lemma_story::<T>(
            outer,
            after,
            more,
            features,
            section.at(c),
            (n - 1) as nat,
        );
        let (rest, _) = read::<T>(section.at(c), (n - 1) as nat);
        let moments = seq![now] + later;
        assert(items =~= seq![item] + rest);
        assert(step::<T>(outer, features, item, now, later[0]));
        assert forall|i: int| 0 <= i < n implies step::<T>(
            outer,
            features,
            items[i],
            #[trigger] moments[i],
            moments[i + 1],
        ) by {
            if i > 0 {
                assert(items[i] == rest[i - 1]);
                assert(moments[i] == later[i - 1]);
                assert(moments[i + 1] == later[i]);
            }
        }
        moments
    }
}

/// If a section of a component is accepted, the component model is enabled, each of its items was
/// accepted, one behind the other, and nothing follows the last.
pub proof fn law_every_item<T: ComponentSection>(v: ValidatorView, section: SectionView) -> (moments:
    Seq<Moment>)
    requires
        v.component_section::<T>(section).1 is Ok,
    ensures
        v.features.component_model,
        v.state == State::Component,
        story::<T>(around(v.components), v.features, section, moments),
        moments[0] == (Moment { component: v.components.last(), types: v.types }),
        ({
            let w = v.component_section::<T>(section).0;
            let end = read::<T>(section, section.count as nat).1;
            &&& end.pos >= end.bytes.len()
            &&& w.components == around(v.components).push(moments[section.count as int].component)
            &&& w.types == moments[section.count as int].types
            &&& w.state == v.state && w.module == v.module && w.features == v.features
        }),
{
    let moments = lemma_story::<T>(
        around(v.components),
        v.components.last(),
        v.types,
        v.features,
        section,
        section.count as nat,
    );
    let items = read::<T>(section, section.count as nat).0;
    assert forall|i: int|
        #![trigger moments[i]]
        #![trigger items[i]]
        0 <= i < section.count implies step::<T>(
        around(v.components),
        v.features,
        items[i],
        moments[i],
        moments[i + 1],
    ) by {
        let m = moments[i];
    }
    moments
}

/// What the instance with an index exports.
pub open spec fn exports_of(c: ComponentView, types: Seq<DefinedTypeView>, instance: u32) -> Seq<
    (Seq<char>, EntityType),
> {
    types[c.instances[instance as int] as int]->ModuleInstance_0
}

/// There is an instance of a module with an index.
pub open spec fn module_instance(
    c: ComponentView,
    types: Seq<DefinedTypeView>,
    instance: u32,
) -> bool {
    instance < c.instances.len() && is_module_instance_type(types, c.instances[instance as int])
}

/// One of the instances that a module is given is given under the name of the module that an import
/// is from, and exports, under the name of the import, something that is used as the import is.
pub open spec fn offered(
    c: ComponentView,
    types: Seq<DefinedTypeView>,
    args: Seq<ModuleArgView>,
    import: ModuleImportView,
) -> bool {
    exists|k: int, j: int|
        0 <= k < args.len() && 0 <= j < exports_of(c, types, args[k].instance).len()
            && #[trigger] offers(c, types, args[k], j, import)
}

/// An instance that is given to a module exports what an import needs, in some place.
pub open spec fn offers(
    c: ComponentView,
    types: Seq<DefinedTypeView>,
    arg: ModuleArgView,
    j: int,
    import: ModuleImportView,
) -> bool {
    let export = exports_of(c, types, arg.instance)[j];
    &&& arg.name == import.module
    &&& module_instance(c, types, arg.instance)
    &&& export.0 == import.name
    &&& used_as(types, export.1, import.ty)
}

/// Each argument is an instance of a module, and no name is given twice.
pub open spec fn good_args(
    c: ComponentView,
    types: Seq<DefinedTypeView>,
    args: Seq<ModuleArgView>,
) -> bool {
    &&& forall|k: int| 0 <= k < args.len() ==> module_instance(c, types, (#[trigger] args[k]).instance)
    &&& forall|k: int, l: int|
        0 <= k < l < args.len() ==> (#[trigger] args[k]).name != (#[trigger] args[l]).name
}

/// In the exports of the instances that are given no name comes twice, and each can be had.
pub open spec fn clear_args(
    c: ComponentView,
    types: Seq<DefinedTypeView>,
    args: Seq<ModuleArgView>,
) -> bool {
    forall|k: int|
        #![trigger args[k]]
        0 <= k < args.len() ==> clear(exports_of(c, types, args[k].instance))
}

/// In a list of exports no name comes twice, and each can be had.
pub open spec fn clear(exports: Seq<(Seq<char>, EntityType)>) -> bool {
    &&& names_once(exports)
    &&& forall|j: int| 0 <= j < exports.len() ==> possible((#[trigger] exports[j]).1)
}

proof fn lemma_args(
    c: ComponentView,
    types: Seq<DefinedTypeView>,
    args: Seq<ModuleArgView>,
    i: int,
    acc: Seq<(Seq<char>, usize)>,
    offset: int,
)
    requires
        c.wf(types),
        0 <= i <= args.len(),
        acc.len() == i,
        forall|k: int| 0 <= k < i ==> (#[trigger] acc[k]).0 == args[k].name,
        forall|k: int|
            0 <= k < i ==> module_instance(c, types, (#[trigger] args[k]).instance) && acc[k].1
                == c.instances[args[k].instance as int],
        forall|k: int, l: int|
            0 <= k < l < i ==> (#[trigger] args[k]).name != (#[trigger] args[l]).name,
    ensures
        c.module_args(types, args, i, acc, offset) is Ok <==> good_args(c, types, args),
        c.module_args(types, args, i, acc, offset) matches Ok(given) ==> {
            &&& given.len() == args.len()
            &&& forall|k: int|
                0 <= k < args.len() ==> (#[trigger] given[k]) == (
                    args[k].name,
                    c.instances[args[k].instance as int],
                )
        },
    decreases args.len() - i,
{
    if i < args.len() {
        match c.module_instance_at(types, args[i].instance, offset) {
            Err(_) => {
                assert(!module_instance(c, types, args[i].instance));
            },
            Ok(place) => {
                assert(module_instance(c, types, args[i].instance));
                if has_name(acc, args[i].name) {
                    let k = place_of(acc, args[i].name);
                    assert(acc[k].0 == args[k].name);
                    assert(args[k].name == args[i].name);
                } else {
                    let next = acc.push((args[i].name, place));
                    assert forall|k: int, l: int| 0 <= k < l < i + 1 implies (
                    #[trigger] args[k]).name != (#[trigger] args[l]).name by {
                        if l == i {
                            assert(acc[k].0 == args[k].name);
                        }
                    }
                    assert forall|k: int| 0 <= k < i + 1 implies module_instance(
                        c,
                        types,
                        (#[trigger] args[k]).instance,
                    ) && next[k].1 == c.instances[args[k].instance as int] by {
                        if k < i {
                            assert(next[k] == acc[k]);
                        }
                    }
                    assert forall|k: int| 0 <= k < i + 1 implies (#[trigger] next[k]).0
                        == args[k].name by {
                        if k < i {
                            assert(next[k] == acc[k]);
                        }
                    }
                    lemma_args(c, types, args, i + 1, next, offset);
                }
            },
        }
    } else {
        assert forall|k: int| 0 <= k < args.len() implies (#[trigger] acc[k]) == (
            args[k].name,
            c.instances[args[k].instance as int],
        ) by {
            let a = args[k];
            assert(acc[k].1 == c.instances[a.instance as int]);
        }
    }
}

proof fn lemma_offered(
    c: ComponentView,
    types: Seq<DefinedTypeView>,
    args: Seq<ModuleArgView>,
    given: Seq<(Seq<char>, usize)>,
    imports: Seq<ModuleImportView>,
    i: int,
    offset: int,
)
    requires
        c.wf(types),
        types_ok(types),
        good_args(c, types, args),
        given.len() == args.len(),
        forall|k: int|
            0 <= k < args.len() ==> (#[trigger] given[k]) == (
                args[k].name,
                c.instances[args[k].instance as int],
            ),
        forall|n: int| 0 <= n < imports.len() ==> (#[trigger] imports[n]).ty.ok(types),
        0 <= i <= imports.len(),
    ensures
        module_imports_given(types, imports, i, given, offset) is Ok ==> forall|n: int|
            i <= n < imports.len() ==> offered(c, types, args, #[trigger] imports[n]),
        clear_args(c, types, args) && (forall|n: int|
            i <= n < imports.len() ==> offered(c, types, args, #[trigger] imports[n]))
            ==> module_imports_given(types, imports, i, given, offset) is Ok,
    decreases imports.len() - i,
{
    if i < imports.len() {
        let import = imports[i];
        lemma_offered(c, types, args, given, imports, i + 1, offset);
        lemma_one_offered(c, types, args, given, import);
        let found = lookup(given, import.module);
        if found is Some {
            let place = found->0;
            let listed = types[place as int]->ModuleInstance_0;
            if lookup(listed, import.name) is Some {
                let ty = lookup(listed, import.name)->0;
            }
        }
        if clear_args(c, types, args) && (forall|n: int|
            i <= n < imports.len() ==> offered(c, types, args, #[trigger] imports[n])) {
            assert(offered(c, types, args, imports[i]));
        }
    }
}

/// What `module_imports_given` asks of one import.
spec fn found(
    types: Seq<DefinedTypeView>,
    given: Seq<(Seq<char>, usize)>,
    import: ModuleImportView,
) -> bool {
    &&& lookup(given, import.module) matches Some(place)
    &&& lookup(types[place as int]->ModuleInstance_0, import.name) matches Some(ty)
    &&& sub_core(types, ty, import.ty)
}

proof fn lemma_one_offered(
    c: ComponentView,
    types: Seq<DefinedTypeView>,
    args: Seq<ModuleArgView>,
    given: Seq<(Seq<char>, usize)>,
    import: ModuleImportView,
)
    requires
        c.wf(types),
        types_ok(types),
        good_args(c, types, args),
        given.len() == args.len(),
        forall|k: int|
            0 <= k < args.len() ==> (#[trigger] given[k]) == (
                args[k].name,
                c.instances[args[k].instance as int],
            ),
        import.ty.ok(types),
    ensures
        found(types, given, import) ==> offered(c, types, args, import),
        clear_args(c, types, args) && offered(c, types, args, import) ==> found(
            types,
            given,
            import,
        ),
{
    if found(types, given, import) {
        let k = place_of(given, import.module);
        assert(given[k].0 == import.module);
        assert(args[k].name == import.module);
        let exports = exports_of(c, types, args[k].instance);
        let j = place_of(exports, import.name);
        assert(exports[j].0 == import.name);
        lemma_exports_ok(c, types, args[k].instance, j);
        law_core(types, exports[j].1, import.ty);
        assert(offers(c, types, args[k], j, import));
    }
    if clear_args(c, types, args) && offered(c, types, args, import) {
        let (k, j) = choose|k: int, j: int|
            0 <= k < args.len() && 0 <= j < exports_of(c, types, args[k].instance).len()
                && #[trigger] offers(c, types, args[k], j, import);
        assert(given[k].0 == import.module);
        assert(has_name(given, import.module));
        let l = place_of(given, import.module);
        assert(given[l].0 == import.module);
        assert(args[l].name == args[k].name);
        assert(l == k) by {
            if l < k {
                assert(args[l].name != args[k].name);
            } else if k < l {
                assert(args[k].name != args[l].name);
            }
        }
        let exports = exports_of(c, types, args[k].instance);
        assert(clear(exports));
        assert(exports[j].0 == import.name);
        assert(has_name(exports, import.name));
        let m = place_of(exports, import.name);
        assert(exports[m].0 == exports[j].0);
        assert(m == j);
        lemma_exports_ok(c, types, args[k].instance, j);
        assert(possible(exports[j].1));
        law_core(types, exports[j].1, import.ty);
    }
}

proof fn lemma_exports_ok(c: ComponentView, types: Seq<DefinedTypeView>, instance: u32, j: int)
    requires
        types_ok(types),
        module_instance(c, types, instance),
        0 <= j < exports_of(c, types, instance).len(),
    ensures
        exports_of(c, types, instance)[j].1.ok(types),
{
    let place = c.instances[instance as int] as int;
    let front = types.take(place);
    assert(types[place].ok(front));
    assert(exports_of(c, types, instance)[j].1.ok(front));
}

/// An instance of a module is accepted only if each of its arguments is an instance of a module, no
/// name is given twice, and each of its imports is offered: the instance that is given under the name
/// of the import's module exports under the import's name what is imported. Each such instance is
/// accepted, and it exports what the module exports.
pub proof fn law_module_instance(
    c: ComponentView,
    types: Seq<DefinedTypeView>,
    index: u32,
    args: Seq<ModuleArgView>,
    offset: int,
)
    requires
        c.wf(types),
        types_ok(types),
    ensures
        ({
            let (after, more, result) = c.add_instance(
                types,
                InstanceView::Module { index, args },
                offset,
            );
            let module = types[c.modules[index as int] as int]->Module_0;
            let all_offered = forall|n: int|
                0 <= n < module.imports.len() ==> offered(
                    c,
                    types,
                    args,
                    #[trigger] module.imports[n],
                );
            &&& result is Ok ==> {
                &&& index < c.modules.len()
                &&& good_args(c, types, args)
                &&& all_offered
                &&& after == (ComponentView {
                    instances: c.instances.push(types.len() as usize),
                    ..c
                })
                &&& more == types.push(DefinedTypeView::ModuleInstance(module.exports))
            }
            &&& result is Err ==> after == c && more == types
            &&& index < c.modules.len() && good_args(c, types, args) && clear_args(c, types, args)
                && all_offered ==> result is Ok
        }),
{
    if index < c.modules.len() {
        let place = c.modules[index as int] as int;
        let module = types[place]->Module_0;
        let front = types.take(place);
        assert(types[place].ok(front));
        assert forall|n: int| 0 <= n < module.imports.len() implies (
        #[trigger] module.imports[n]).ty.ok(types) by {
            assert(module.imports[n].ty.ok(front));
        }
        lemma_args(c, types, args, 0, Seq::empty(), offset);
        if let Ok(given) = c.module_args(types, args, 0, Seq::empty(), offset) {
            lemma_offered(c, types, args, given, module.imports, 0, offset);
        }
    }
}

/// An instance of a module is accepted only if, for each of its function imports, the instance that
/// is given under the import's module name exports under the import's name a function with the same
/// parameters and the same results.
pub proof fn law_function_imports(
    c: ComponentView,
    types: Seq<DefinedTypeView>,
    index: u32,
    args: Seq<ModuleArgView>,
    offset: int,
    n: int,
)
    requires
        c.wf(types),
        types_ok(types),
        c.add_instance(types, (InstanceView::Module { index, args }), offset).2 is Ok,
        0 <= n < (types[c.modules[index as int] as int]->Module_0).imports.len(),
        (types[c.modules[index as int] as int]->Module_0).imports[n].ty is Func,
    ensures
        ({
            let import = (types[c.modules[index as int] as int]->Module_0).imports[n];
            exists|k: int, j: int|
                {
                    &&& 0 <= k < args.len()
                    &&& 0 <= j < exports_of(c, types, args[k].instance).len()
                    &&& args[k].name == import.module
                    &&& (#[trigger] exports_of(c, types, args[k].instance)[j]).0 == import.name
                    &&& exports_of(c, types, args[k].instance)[j].1 matches EntityType::Func(place)
                    &&& same_signature(types, place, import.ty->Func_0)
                }
        }),
{
    law_module_instance(c, types, index, args, offset);
    let import = (types[c.modules[index as int] as int]->Module_0).imports[n];
    assert(offered(c, types, args, import));
    let (k, j) = choose|k: int, j: int|
        0 <= k < args.len() && 0 <= j < exports_of(c, types, args[k].instance).len()
            && #[trigger] offers(c, types, args[k], j, import);
    let e = exports_of(c, types, args[k].instance)[j];
    assert(e.0 == import.name);
}

/// What an export of an instance that is put together stands for, if it is there.
pub open spec fn core_thing(
    c: ComponentView,
    types: Seq<DefinedTypeView>,
    kind: ExternalKind,
    index: int,
) -> Option<EntityType> {
    match kind {
        ExternalKind::Func => if index < c.functions.len() && is_func_type(
            types,
            c.functions[index],
        ) {
            Some(EntityType::Func(c.functions[index]))
        } else {
            None
        },
        ExternalKind::Table => if index < c.tables.len() {
            Some(EntityType::Table(c.tables[index]))
        } else {
            None
        },
        ExternalKind::Memory => if index < c.memories.len() {
            Some(EntityType::Memory(c.memories[index]))
        } else {
            None
        },
        ExternalKind::Global => if index < c.globals.len() {
            Some(EntityType::Global(c.globals[index]))
        } else {
            None
        },
        ExternalKind::Tag => if index < c.tags.len() {
            Some(EntityType::Tag(c.tags[index]))
        } else {
            None
        },
    }
}

/// All exports stand for something, and no name comes twice.
pub open spec fn good_core_exports(
    c: ComponentView,
    types: Seq<DefinedTypeView>,
    exports: Seq<ExportView>,
) -> bool {
    &&& forall|k: int|
        0 <= k < exports.len() ==> core_thing(
            c,
            types,
            (#[trigger] exports[k]).kind,
            exports[k].index as int,
        ) is Some
    &&& forall|k: int, l: int|
        0 <= k < l < exports.len() ==> (#[trigger] exports[k]).name != (#[trigger] exports[l]).name
}

/// An entry of a list of exports says what an export stands for.
pub open spec fn core_entry(
    c: ComponentView,
    types: Seq<DefinedTypeView>,
    export: ExportView,
    entry: (Seq<char>, EntityType),
) -> bool {
    &&& entry.0 == export.name
    &&& core_thing(c, types, export.kind, export.index as int) == Some(entry.1)
}

proof fn lemma_core_exports(
    c: ComponentView,
    types: Seq<DefinedTypeView>,
    exports: Seq<ExportView>,
    i: int,
    acc: Seq<(Seq<char>, EntityType)>,
    offset: int,
)
    requires
        c.wf(types),
        0 <= i <= exports.len(),
        acc.len() == i,
        forall|k: int| 0 <= k < i ==> core_entry(c, types, exports[k], #[trigger] acc[k]),
        forall|k: int, l: int|
            0 <= k < l < i ==> (#[trigger] exports[k]).name != (#[trigger] exports[l]).name,
    ensures
        c.core_exports(types, exports, i, acc, offset) is Ok <==> good_core_exports(
            c,
            types,
            exports,
        ),
        c.core_exports(types, exports, i, acc, offset) matches Ok(list) ==> {
            &&& list.len() == exports.len()
            &&& forall|k: int|
                0 <= k < exports.len() ==> core_entry(c, types, exports[k], #[trigger] list[k])
        },
    decreases exports.len() - i,
{
    if i < exports.len() {
        let export = exports[i];
        match c.core_export(types, export, offset) {
            Err(_) => {
                assert(core_thing(c, types, export.kind, export.index as int) is None);
            },
            Ok(ty) => {
                assert(core_entry(c, types, export, (export.name, ty)));
                if has_name(acc, export.name) {
                    let k = place_of(acc, export.name);
                    assert(core_entry(c, types, exports[k], acc[k]));
                    assert(exports[k].name == exports[i].name);
                } else {
                    let next = acc.push((export.name, ty));
                    assert forall|k: int| 0 <= k < i + 1 implies core_entry(
                        c,
                        types,
                        exports[k],
                        #[trigger] next[k],
                    ) by {
                        if k < i {
                            assert(next[k] == acc[k]);
                        }
                    }
                    assert forall|k: int, l: int| 0 <= k < l < i + 1 implies (
                    #[trigger] exports[k]).name != (#[trigger] exports[l]).name by {
                        if l == i {
                            assert(core_entry(c, types, exports[k], acc[k]));
                        }
                    }
                    lemma_core_exports(c, types, exports, i + 1, next, offset);
                }
            },
        }
    } else {
        assert forall|k: int| 0 <= k < exports.len() implies core_thing(
            c,
            types,
            (#[trigger] exports[k]).kind,
            exports[k].index as int,
        ) is Some by {
            assert(core_entry(c, types, exports[k], acc[k]));
        }
    }
}

/// An instance of a module that is put together is accepted exactly if each export is something that
/// is there, under a name of its own, and it then exports that under these names.
pub proof fn law_module_from_exports(
    c: ComponentView,
    types: Seq<DefinedTypeView>,
    exports: Seq<ExportView>,
    offset: int,
)
    requires
        c.wf(types),
    ensures
        ({
            let (after, more, result) = c.add_instance(
                types,
                InstanceView::ModuleFromExports(exports),
                offset,
            );
            &&& result is Ok <==> good_core_exports(c, types, exports)
            &&& result is Err ==> after == c && more == types
            &&& result is Ok ==> {
                let list = more.last()->ModuleInstance_0;
                &&& after == (ComponentView {
                    instances: c.instances.push(types.len() as usize),
                    ..c
                })
                &&& more == types.push(DefinedTypeView::ModuleInstance(list))
                &&& list.len() == exports.len()
                &&& forall|k: int|
                    0 <= k < list.len() ==> core_entry(c, types, exports[k], #[trigger] list[k])
            }
        }),
{
    lemma_core_exports(c, types, exports, 0, Seq::empty(), offset);
    let (after, more, result) = c.add_instance(
        types,
        InstanceView::ModuleFromExports(exports),
        offset,
    );
    if let Ok(list) = c.core_exports(types, exports, 0, Seq::empty(), offset) {
        assert(more.last() == DefinedTypeView::ModuleInstance(list));
    }
}

/// What an argument or an export stands for, if it is there.
pub open spec fn thing(
    c: ComponentView,
    types: Seq<DefinedTypeView>,
    kind: ComponentArgKind,
) -> Option<ComponentEntityType> {
    match kind {
        ComponentArgKind::Module(i) => if i < c.modules.len() {
            Some(ComponentEntityType::Module(c.modules[i as int]))
        } else {
            None
        },
        ComponentArgKind::Component(i) => if i < c.components.len() {
            Some(ComponentEntityType::Component(c.components[i as int]))
        } else {
            None
        },
        ComponentArgKind::Instance(i) => if i < c.instances.len() && is_instance_type(
            types,
            c.instances[i as int],
        ) {
            Some(ComponentEntityType::Instance(c.instances[i as int]))
        } else {
            None
        },
        ComponentArgKind::Function(i) => if i < c.functions.len() && is_component_func_type(
            types,
            c.functions[i as int],
        ) {
            Some(ComponentEntityType::Func(c.functions[i as int]))
        } else {
            None
        },
        ComponentArgKind::Value(i) => if i < c.values.len() {
            Some(ComponentEntityType::Value(c.values[i as int].0))
        } else {
            None
        },
        ComponentArgKind::Type(i) => if i < c.types.len() {
            Some(ComponentEntityType::Type(c.types[i as int]))
        } else {
            None
        },
    }
}

/// A value has been used.
pub open spec fn used(c: ComponentView, kind: ComponentArgKind) -> bool {
    kind matches ComponentArgKind::Value(i) && c.values[i as int].1
}

/// The value with an index is named.
pub open spec fn names_value(kind: ComponentArgKind, n: int) -> bool {
    kind matches ComponentArgKind::Value(i) && i == n
}

/// The arguments from the `i`th on are there, their names are new, and none is a value that has been
/// used or is given twice.
pub open spec fn good_things(
    c: ComponentView,
    types: Seq<DefinedTypeView>,
    args: Seq<ComponentExportView>,
    i: int,
    acc: Seq<(Seq<char>, ComponentEntityType)>,
) -> bool {
    &&& forall|k: int|
        i <= k < args.len() ==> thing(c, types, (#[trigger] args[k]).kind) is Some && !used(
            c,
            args[k].kind,
        ) && !has_name(acc, args[k].name)
    &&& forall|k: int, l: int|
        i <= k < l < args.len() ==> (#[trigger] args[k]).name != (#[trigger] args[l]).name && !(
        args[k].kind is Value && args[k].kind == args[l].kind)
}

/// The component is as it was, but that the values among the arguments from the `i`th on have
/// been used.
pub open spec fn uses_up(
    c: ComponentView,
    after: ComponentView,
    args: Seq<ComponentExportView>,
    i: int,
) -> bool {
    &&& after == (ComponentView { values: after.values, ..c })
    &&& after.values.len() == c.values.len()
    &&& forall|n: int| 0 <= n < c.values.len() ==> (#[trigger] after.values[n]).0 == c.values[n].0
    &&& forall|n: int|
        0 <= n < c.values.len() ==> ((#[trigger] after.values[n]).1 <==> c.values[n].1
            || exists|k: int|
            i <= k < args.len() && names_value(#[trigger] args[k].kind, n))
}

/// An entry of a list says what an argument or an export stands for.
pub open spec fn entry_of(
    c: ComponentView,
    types: Seq<DefinedTypeView>,
    arg: ComponentExportView,
    entry: (Seq<char>, ComponentEntityType),
) -> bool {
    entry.0 == arg.name && thing(c, types, arg.kind) == Some(entry.1)
}

/// What is exported, or given to what is instantiated, is what stands in the named place, and a value
/// is used up by it.
pub proof fn law_thing(
    c: ComponentView,
    types: Seq<DefinedTypeView>,
    kind: ComponentArgKind,
    offset: int,
)
    requires
        c.wf(types),
    ensures
        ({
            let (after, result) = c.kind_type(types, kind, offset);
            &&& result is Ok <==> thing(c, types, kind) is Some && !used(c, kind)
            &&& result matches Ok(ty) ==> thing(c, types, kind) == Some(ty)
            &&& after == (ComponentView { values: after.values, ..c })
            &&& after.values.len() == c.values.len()
            &&& forall|n: int|
                0 <= n < c.values.len() ==> (#[trigger] after.values[n]).0 == c.values[n].0 && (
                after.values[n].1 <==> c.values[n].1 || (result is Ok && names_value(kind, n)))
        }),
{
}

proof fn lemma_things(
    c: ComponentView,
    types: Seq<DefinedTypeView>,
    args: Seq<ComponentExportView>,
    i: int,
    acc: Seq<(Seq<char>, ComponentEntityType)>,
    duplicate: &'static str,
    offset: int,
)
    requires
        c.wf(types),
        0 <= i <= args.len(),
        acc.len() == i,
    ensures
        ({
            let (after, result) = c.component_args(types, args, i, acc, duplicate, offset);
            &&& result is Ok <==> good_things(c, types, args, i, acc)
            &&& result matches Ok(list) ==> {
                &&& uses_up(c, after, args, i)
                &&& list.len() == args.len()
                &&& forall|k: int| 0 <= k < i ==> #[trigger] list[k] == acc[k]
                &&& forall|k: int|
                    i <= k < args.len() ==> entry_of(c, types, args[k], #[trigger] list[k])
            }
        }),
    decreases args.len() - i,
{
    if i < args.len() {
        law_thing(c, types, args[i].kind, offset);
        let (next, result) = c.kind_type(types, args[i].kind, offset);
        if let Ok(ty) = result {
            if !has_name(acc, args[i].name) {
                let grown = acc.push((args[i].name, ty));
                assert forall|k: int| 0 <= k < args.len() implies thing(
                    next,
                    types,
                    (#[trigger] args[k]).kind,
                ) == thing(c, types, args[k].kind) by {}
                assert forall|name: Seq<char>| #[trigger] has_name(grown, name) <==> has_name(
                    acc,
                    name,
                ) || name == args[i].name by {
                    if has_name(acc, name) {
                        let p = place_of(acc, name);
                        assert(grown[p].0 == name);
                    }
                    if name == args[i].name {
                        assert(grown[i].0 == name);
                    }
                    if has_name(grown, name) {
                        let p = place_of(grown, name);
                        if p < i {
                            assert(acc[p].0 == name);
                        }
                    }
                }
                assert(next.wf(types)) by {
                    assert forall|n: int| 0 <= n < next.values.len() implies (
                    #[trigger] next.values[n]).0.ok(types) by {
                        assert(c.values[n].0.ok(types));
                    }
                }
                lemma_things(next, types, args, i + 1, grown, duplicate, offset);
                let (after, last) = next.component_args(
                    types,
                    args,
                    i + 1,
                    grown,
                    duplicate,
                    offset,
                );
                lemma_things_step(c, next, types, args, i, acc, grown);
                if last is Ok {
                    let list = last->Ok_0;
                    assert forall|k: int| 0 <= k < i implies #[trigger] list[k] == acc[k] by {
                        assert(list[k] == grown[k]);
                    }
                    assert forall|k: int| i <= k < args.len() implies entry_of(
                        c,
                        types,
                        args[k],
                        #[trigger] list[k],
                    ) by {
                        if k == i {
                            assert(list[k] == grown[k]);
                        } else {
                            assert(entry_of(next, types, args[k], list[k]));
                        }
                    }
                    assert forall|n: int| 0 <= n < c.values.len() implies (
                    #[trigger] after.values[n]).0 == c.values[n].0 by {
                        assert(next.values[n].0 == c.values[n].0);
                    }
                    assert forall|n: int| 0 <= n < c.values.len() implies ((
                    #[trigger] after.values[n]).1 <==> c.values[n].1 || exists|k: int|
                        i <= k < args.len() && names_value(#[trigger] args[k].kind, n)) by {
                        assert(next.values[n].1 <==> c.values[n].1 || names_value(args[i].kind, n));
                        if names_value(args[i].kind, n) {
                            assert(i <= i < args.len() && names_value(args[i].kind, n));
                        }
                    }
                }
            } else {
                assert(!good_things(c, types, args, i, acc));
            }
        } else {
            assert(!good_things(c, types, args, i, acc));
        }
    } else {
        assert(c.values =~= c.values);
    }
}

proof fn lemma_things_step(
    c: ComponentView,
    next: ComponentView,
    types: Seq<DefinedTypeView>,
    args: Seq<ComponentExportView>,
    i: int,
    acc: Seq<(Seq<char>, ComponentEntityType)>,
    grown: Seq<(Seq<char>, ComponentEntityType)>,
)
    requires
        0 <= i < args.len(),
        thing(c, types, args[i].kind) is Some,
        !used(c, args[i].kind),
        !has_name(acc, args[i].name),
        next.values.len() == c.values.len(),
        forall|n: int|
            0 <= n < c.values.len() ==> ((#[trigger] next.values[n]).1 <==> c.values[n].1
                || names_value(args[i].kind, n)),
        forall|k: int|
            0 <= k < args.len() ==> thing(next, types, (#[trigger] args[k]).kind) == thing(
                c,
                types,
                args[k].kind,
            ),
        forall|name: Seq<char>| #[trigger]
            has_name(grown, name) <==> has_name(acc, name) || name == args[i].name,
    ensures
        good_things(c, types, args, i, acc) <==> good_things(next, types, args, i + 1, grown),
{
    assert forall|k: int| i < k < args.len() && thing(c, types, args[k].kind) is Some implies used(
        next,
        #[trigger] args[k].kind,
    ) == (used(c, args[k].kind) || (args[k].kind is Value && args[k].kind == args[i].kind)) by {
        if let ComponentArgKind::Value(n) = args[k].kind {
            assert(next.values[n as int].1 <==> c.values[n as int].1 || names_value(
                args[i].kind,
                n as int,
            ));
        }
    }
    if good_things(c, types, args, i, acc) {
        assert forall|k: int| i + 1 <= k < args.len() implies thing(
            next,
            types,
            (#[trigger] args[k]).kind,
        ) is Some && !used(next, args[k].kind) && !has_name(grown, args[k].name) by {
            assert(args[i].name != args[k].name);
            assert(used(next, args[k].kind) == (used(c, args[k].kind) || (args[k].kind is Value
                && args[k].kind == args[i].kind)));
        }
    }
    if good_things(next, types, args, i + 1, grown) {
        assert forall|k: int| i <= k < args.len() implies thing(
            c,
            types,
            (#[trigger] args[k]).kind,
        ) is Some && !used(c, args[k].kind) && !has_name(acc, args[k].name) by {
            if k > i {
                assert(thing(next, types, args[k].kind) is Some);
                assert(used(next, args[k].kind) == (used(c, args[k].kind) || (args[k].kind is Value
                    && args[k].kind == args[i].kind)));
                assert(has_name(grown, args[k].name) <==> has_name(acc, args[k].name)
                    || args[k].name == args[i].name);
            }
        }
        assert forall|k: int, l: int| i <= k < l < args.len() implies (#[trigger] args[k]).name != (
        #[trigger] args[l]).name && !(args[k].kind is Value && args[k].kind == args[l].kind) by {
            if k == i {
                assert(!has_name(grown, args[l].name));
                assert(has_name(grown, args[i].name));
                assert(used(next, args[l].kind) == (used(c, args[l].kind) || (args[l].kind is Value
                    && args[l].kind == args[i].kind)));
            }
        }
    }
}

/// An instance of a component that is put together is accepted exactly if each export is something
/// that is there, under a name of its own, and no value is used again. It exports that under these
/// names.
pub proof fn law_component_from_exports(
    c: ComponentView,
    types: Seq<DefinedTypeView>,
    exports: Seq<ComponentExportView>,
    offset: int,
)
    requires
        c.wf(types),
    ensures
        ({
            let (after, more, result) = c.add_instance(
                types,
                InstanceView::ComponentFromExports(exports),
                offset,
            );
            &&& result is Ok <==> good_things(c, types, exports, 0, Seq::empty())
            &&& result is Ok ==> {
                let list = more.last()->Instance_0;
                &&& uses_up(
                    c,
                    (ComponentView { instances: c.instances, ..after }),
                    exports,
                    0,
                )
                &&& after.instances == c.instances.push(types.len() as usize)
                &&& more == types.push(DefinedTypeView::Instance(list))
                &&& list.len() == exports.len()
                &&& forall|k: int|
                    0 <= k < list.len() ==> entry_of(c, types, exports[k], #[trigger] list[k])
            }
        }),
{
    let duplicate = "duplicate instantiation export name already defined";
    lemma_things(c, types, exports, 0, Seq::empty(), duplicate, offset);
    let (after, more, result) = c.add_instance(
        types,
        InstanceView::ComponentFromExports(exports),
        offset,
    );
    let (next, given) = c.component_args(types, exports, 0, Seq::empty(), duplicate, offset);
    if let Ok(list) = given {
        assert(more.last() == DefinedTypeView::Instance(list));
        assert(ComponentView { instances: c.instances, ..after } == next);
    }
}

/// One of the things that a component is given stands under the name of an import, and can stand for
/// what is imported.
pub open spec fn component_offered(
    c: ComponentView,
    types: Seq<DefinedTypeView>,
    args: Seq<ComponentExportView>,
    import: (Seq<char>, ComponentEntityType),
) -> bool {
    exists|k: int|
        0 <= k < args.len() && (#[trigger] args[k]).name == import.0 && sub_entity(
            types,
            thing(c, types, args[k].kind)->0,
            import.1,
        )
}

proof fn lemma_component_offered(
    c: ComponentView,
    types: Seq<DefinedTypeView>,
    args: Seq<ComponentExportView>,
    given: Seq<(Seq<char>, ComponentEntityType)>,
    imports: Seq<(Seq<char>, ComponentEntityType)>,
    i: int,
    offset: int,
)
    requires
        given.len() == args.len(),
        forall|k: int| 0 <= k < args.len() ==> entry_of(c, types, args[k], #[trigger] given[k]),
        forall|k: int, l: int|
            0 <= k < l < args.len() ==> (#[trigger] args[k]).name != (#[trigger] args[l]).name,
        0 <= i <= imports.len(),
    ensures
        component_imports_given(types, imports, i, given, offset) is Ok <==> forall|n: int|
            i <= n < imports.len() ==> component_offered(c, types, args, #[trigger] imports[n]),
    decreases imports.len() - i,
{
    if i < imports.len() {
        let import = imports[i];
        lemma_component_offered(c, types, args, given, imports, i + 1, offset);
        match lookup(given, import.0) {
            None => {
                if component_offered(c, types, args, import) {
                    let k = choose|k: int|
                        0 <= k < args.len() && (#[trigger] args[k]).name == import.0 && sub_entity(
                            types,
                            thing(c, types, args[k].kind)->0,
                            import.1,
                        );
                    assert(entry_of(c, types, args[k], given[k]));
                    assert(given[k].0 == import.0);
                }
                assert(!component_offered(c, types, args, imports[i]));
            },
            Some(ty) => {
                let k = place_of(given, import.0);
                assert(entry_of(c, types, args[k], given[k]));
                if component_offered(c, types, args, import) {
                    let l = choose|l: int|
                        0 <= l < args.len() && (#[trigger] args[l]).name == import.0 && sub_entity(
                            types,
                            thing(c, types, args[l].kind)->0,
                            import.1,
                        );
                    assert(k == l) by {
                        if k < l {
                            assert(args[k].name != args[l].name);
                        } else if l < k {
                            assert(args[l].name != args[k].name);
                        }
                    }
                }
                if sub_entity(types, ty, import.1) {
                    assert(args[k].name == import.0);
                    assert(component_offered(c, types, args, imports[i]));
                } else {
                    assert(!component_offered(c, types, args, imports[i]));
                }
            },
        }
    }
}

/// An instance of a component is accepted exactly if each of its arguments is there, under a name of
/// its own, no value is used again, and each of its imports is given under its name something that
/// can stand for it. It exports what the component exports.
pub proof fn law_component_instance(
    c: ComponentView,
    types: Seq<DefinedTypeView>,
    index: u32,
    args: Seq<ComponentExportView>,
    offset: int,
)
    requires
        c.wf(types),
        types_ok(types),
    ensures
        ({
            let (after, more, result) = c.add_instance(
                types,
                InstanceView::Component { index, args },
                offset,
            );
            let component = types[c.components[index as int] as int]->Component_0;
            &&& result is Ok <==> {
                &&& index < c.components.len()
                &&& good_things(c, types, args, 0, Seq::empty())
                &&& forall|n: int|
                    0 <= n < component.imports.len() ==> component_offered(
                        c,
                        types,
                        args,
                        #[trigger] component.imports[n],
                    )
            }
            &&& result is Ok ==> {
                &&& uses_up(c, (ComponentView { instances: c.instances, ..after }), args, 0)
                &&& after.instances == c.instances.push(types.len() as usize)
                &&& more == types.push(DefinedTypeView::Instance(component.exports))
            }
        }),
{
    let duplicate = "duplicate component instantiation argument";
    lemma_things(c, types, args, 0, Seq::empty(), duplicate, offset);
    let (next, given) = c.component_args(types, args, 0, Seq::empty(), duplicate, offset);
    let (after, more, result) = c.add_instance(
        types,
        InstanceView::Component { index, args },
        offset,
    );
    if index < c.components.len() {
        let component = types[c.components[index as int] as int]->Component_0;
        if let Ok(list) = given {
            lemma_component_offered(c, types, args, list, component.imports, 0, offset);
            if result is Ok {
                assert(ComponentView { instances: c.instances, ..after } == next);
            }
        }
    }
}

/// An instance puts its type behind the types and itself behind the instances, and leaves the rest
/// but for the values that it uses.
pub open spec fn one_more_instance(before: Moment, behind: Moment) -> bool {
    &&& behind.types.len() == before.types.len() + 1
    &&& behind.types.take(before.types.len() as int) == before.types
    &&& is_any_instance(behind.types, before.types.len() as usize)
    &&& behind.component.instances == before.component.instances.push(before.types.len() as usize)
    &&& behind.component == (ComponentView {
        instances: behind.component.instances,
        values: behind.component.values,
        ..before.component
    })
}

proof fn lemma_instance_step(
    outer: Seq<ComponentView>,
    features: WasmFeatures,
    item: InstanceView,
    before: Moment,
    behind: Moment,
)
    requires
        step::<InstanceSectionReader>(outer, features, item, before, behind),
        before.component.wf(before.types),
        types_ok(before.types),
        before.types.len() < usize::MAX,
    ensures
        behind.component.wf(behind.types),
        types_ok(behind.types),
        one_more_instance(before, behind),
{
    let c = before.component;
    let types = before.types;
    let offset = choose|offset: int|
        {
            let (d, ts, r) = #[trigger] InstanceSectionReader::added(
                outer,
                c,
                types,
                features,
                item,
                offset,
            );
            r is Ok && behind.component == d && behind.types == ts
        };
    assert(c.add_instance(types, item, offset).2 is Ok);
    let ty = behind.types.last();
    match item {
        InstanceView::Module { index, args } => {
            law_module_instance(c, types, index, args, offset);
            let place = c.modules[index as int] as int;
            let front = types.take(place);
            assert(types[place].ok(front));
            let exports = (types[place]->Module_0).exports;
            assert forall|i: int| 0 <= i < exports.len() implies (#[trigger] exports[i]).1.ok(
                types,
            ) by {
                assert(exports[i].1.ok(front));
            }
            assert(ty.ok(types));
        },
        InstanceView::Component { index, args } => {
            law_component_instance(c, types, index, args, offset);
            let place = c.components[index as int] as int;
            let front = types.take(place);
            assert(types[place].ok(front));
            let exports = (types[place]->Component_0).exports;
            assert forall|i: int| 0 <= i < exports.len() implies (#[trigger] exports[i]).1.ok(
                types,
            ) by {
                assert(exports[i].1.ok(front));
            }
            assert(ty.ok(types));
        },
        InstanceView::ModuleFromExports(exports) => {
            law_module_from_exports(c, types, exports, offset);
            let list = ty->ModuleInstance_0;
            assert forall|i: int| 0 <= i < list.len() implies (#[trigger] list[i]).1.ok(types) by {
                assert(core_entry(c, types, exports[i], list[i]));
            }
            assert(ty.ok(types));
        },
        InstanceView::ComponentFromExports(exports) => {
            law_component_from_exports(c, types, exports, offset);
            let list = ty->Instance_0;
            assert forall|i: int| 0 <= i < list.len() implies (#[trigger] list[i]).1.ok(types) by {
                assert(entry_of(c, types, exports[i], list[i]));
            }
            assert(ty.ok(types));
        },
    }
    let d = behind.component;
    assert(behind.types == types.push(ty));
    assert(behind.types.take(types.len() as int) =~= types);
    lemma_types_ok_push(types, ty);
    let kept = ComponentView { instances: c.instances, ..d };
    assert(kept.wf(types)) by {
        assert forall|n: int| 0 <= n < kept.values.len() implies (#[trigger] kept.values[n]).0.ok(
            types,
        ) by {
            assert(c.values[n].0.ok(types));
        }
    }
    lemma_component_longer(kept, types, behind.types);
    assert(is_any_instance(behind.types, types.len() as usize));
}

/// The first instances of a later moment are those of an earlier one, and so are the types.
pub open spec fn grown_from(early: Moment, late: Moment) -> bool {
    &&& starts_with(late.types, early.types)
    &&& starts_with(late.component.instances, early.component.instances)
    &&& late.component.modules == early.component.modules
    &&& late.component.components == early.component.components
}

/// All that is said of types at a moment is true.
pub open spec fn sound(m: Moment) -> bool {
    m.component.wf(m.types) && types_ok(m.types)
}

proof fn lemma_all_instances(
    outer: Seq<ComponentView>,
    features: WasmFeatures,
    section: SectionView,
    moments: Seq<Moment>,
    n: int,
)
    requires
        story::<InstanceSectionReader>(outer, features, section, moments),
        sound(moments[0]),
        0 <= n <= section.count,
        moments[0].types.len() + n <= usize::MAX,
    ensures
        sound(moments[n]),
        moments[n].types.len() == moments[0].types.len() + n,
        forall|k: int|
            0 <= k < n ==> one_more_instance(#[trigger] moments[k], moments[k + 1]),
    decreases n,
{
    if n > 0 {
        let items = read::<InstanceSectionReader>(section, section.count as nat).0;
        lemma_all_instances(outer, features, section, moments, n - 1);
        let item: InstanceView = items[n - 1];
        assert(step::<InstanceSectionReader>(
            outer,
            features,
            items[n - 1],
            moments[n - 1],
            moments[n],
        ));
        lemma_instance_step(outer, features, item, moments[n - 1], moments[n]);
    }
}

proof fn lemma_instances_grow(moments: Seq<Moment>, i: int, n: int)
    requires
        0 <= i <= n,
        forall|k: int|
            0 <= k < n ==> one_more_instance(#[trigger] moments[k], moments[k + 1]),
    ensures
        grown_from(moments[i], moments[n]),
        moments[n].component.instances.len() == moments[i].component.instances.len() + (n - i),
    decreases n - i,
{
    if i < n {
        lemma_instances_grow(moments, i, n - 1);
        let early = moments[i];
        let middle = moments[n - 1];
        let late = moments[n];
        assert(one_more_instance(middle, late));
        assert forall|k: int| 0 <= k < middle.types.len() implies late.types[k]
            == #[trigger] middle.types[k] by {
            assert(late.types.take(middle.types.len() as int)[k] == middle.types[k]);
        }
        lemma_starts_with_both(late.types, middle.types, early.types);
        lemma_starts_with_both(
            late.component.instances,
            middle.component.instances,
            early.component.instances,
        );
    }
}

/// The component in which a section of instances stands, behind it.
pub open spec fn component_behind(v: ValidatorView, kind: SectionKind, s: SectionView) -> ComponentView {
    v.payload(PayloadView::Section(kind, s)).0.components.last()
}

/// If a section of instances is accepted, each instance of a module in it was offered all that the
/// module imports: for each function import, the instance given under the name of the import's
/// module exports, under the import's name, a function with the same parameters and results, and so
/// for all other imports. The instances come behind those that there are, in order, and each instance
/// of a module exports what the module exports.
pub proof fn law_instance_section(v: ValidatorView, s: SectionView, i: int)
    requires
        v.wf(),
        v.payload(PayloadView::Section(SectionKind::Instance, s)).1 is Ok,
        v.types.len() + s.count <= usize::MAX,
        0 <= i < s.count,
    ensures
        ({
            let before = v.components.last();
            let behind = component_behind(v, SectionKind::Instance, s);
            let types = v.payload(PayloadView::Section(SectionKind::Instance, s)).0.types;
            let items = read::<InstanceSectionReader>(s, s.count as nat).0;
            let place = behind.instances[before.instances.len() + i] as int;
            &&& v.features.component_model
            &&& items.len() == s.count
            &&& behind.instances.len() == before.instances.len() + s.count <= 1000
            &&& is_any_instance(types, place as usize)
            &&& items[i] matches InstanceView::Module { index, args } ==> {
                let module = types[before.modules[index as int] as int]->Module_0;
                &&& index < before.modules.len()
                &&& types[place] == DefinedTypeView::ModuleInstance(module.exports)
                &&& good_args(behind, types, args)
                &&& forall|k: int|
                    0 <= k < args.len() ==> (#[trigger] args[k]).instance < before.instances.len()
                        + i
                &&& forall|n: int|
                    0 <= n < module.imports.len() ==> offered(
                        behind,
                        types,
                        args,
                        #[trigger] module.imports[n],
                    )
            }
        }),
{
    let outer = around(v.components);
    let moments = law_every_item::<InstanceSectionReader>(v, s);
    let items = read::<InstanceSectionReader>(s, s.count as nat).0;
    let early = moments[i];
    let next = moments[i + 1];
    let late = moments[s.count as int];
    assert(v.components.last().wf(v.types));
    lemma_all_instances(outer, v.features, s, moments, i);
    lemma_all_instances(outer, v.features, s, moments, s.count as int);
    lemma_instances_grow(moments, 0, i);
    lemma_instances_grow(moments, 0, s.count as int);
    lemma_instances_grow(moments, i, s.count as int);
    lemma_instances_grow(moments, i + 1, s.count as int);
    let item: InstanceView = items[i];
    assert(step::<InstanceSectionReader>(outer, v.features, items[i], early, next));
    assert(one_more_instance(early, next));
    lemma_last_instance(early, next, late);
    if let InstanceView::Module { index, args } = item {
        lemma_instance_later(outer, v.features, index, args, early, next, late);
    }
}

proof fn lemma_last_instance(early: Moment, next: Moment, late: Moment)
    requires
        one_more_instance(early, next),
        grown_from(next, late),
        early.types.len() < usize::MAX,
    ensures
        late.component.instances[early.component.instances.len() as int] == early.types.len(),
        late.types[early.types.len() as int] == next.types.last(),
        is_any_instance(late.types, early.types.len() as usize),
{
    let last = early.component.instances.len() as int;
    assert(late.component.instances[last] == next.component.instances[last]);
    assert(late.types[early.types.len() as int] == next.types[early.types.len() as int]);
}

/// What `law_instance_section` says of an instance of a module.
spec fn instance_offered(
    early: Moment,
    late: Moment,
    index: u32,
    args: Seq<ModuleArgView>,
    ty: DefinedTypeView,
) -> bool {
    let module = late.types[early.component.modules[index as int] as int]->Module_0;
    &&& index < early.component.modules.len()
    &&& ty == DefinedTypeView::ModuleInstance(module.exports)
    &&& good_args(late.component, late.types, args)
    &&& forall|k: int|
        0 <= k < args.len() ==> (#[trigger] args[k]).instance < early.component.instances.len()
    &&& forall|n: int|
        0 <= n < module.imports.len() ==> offered(
            late.component,
            late.types,
            args,
            #[trigger] module.imports[n],
        )
}

proof fn lemma_instance_later(
    outer: Seq<ComponentView>,
    features: WasmFeatures,
    index: u32,
    args: Seq<ModuleArgView>,
    early: Moment,
    next: Moment,
    late: Moment,
)
    requires
        sound(early),
        step::<InstanceSectionReader>(
            outer,
            features,
            (InstanceView::Module { index, args }),
            early,
            next,
        ),
        grown_from(early, late),
    ensures
        instance_offered(early, late, index, args, next.types.last()),
{
    let item = InstanceView::Module { index, args };
    let offset = choose|offset: int|
        {
            let (d, ts, r) = #[trigger] InstanceSectionReader::added(
                outer,
                early.component,
                early.types,
                features,
                item,
                offset,
            );
            r is Ok && next.component == d && next.types == ts
        };
    assert(early.component.add_instance(early.types, item, offset).2 is Ok);
    law_module_instance(early.component, early.types, index, args, offset);
    let place = early.component.modules[index as int] as int;
    assert(early.types[place] == late.types[place]);
    let module = early.types[place]->Module_0;
    assert forall|k: int| 0 <= k < args.len() implies module_instance(
        late.component,
        late.types,
        (#[trigger] args[k]).instance,
    ) by {
        lemma_still_exports(early, late, args[k].instance);
    }
    assert forall|n: int| 0 <= n < module.imports.len() implies offered(
        late.component,
        late.types,
        args,
        #[trigger] module.imports[n],
    ) by {
        let import = module.imports[n];
        assert(offered(early.component, early.types, args, import));
        let (k, j) = choose|k: int, j: int|
            0 <= k < args.len() && 0 <= j < exports_of(
                early.component,
                early.types,
                args[k].instance,
            ).len() && #[trigger] offers(early.component, early.types, args[k], j, import);
        lemma_still_exports(early, late, args[k].instance);
        lemma_exports_ok(early.component, early.types, args[k].instance, j);
        let export = exports_of(early.component, early.types, args[k].instance)[j];
        let front = early.types.take(place);
        assert(early.types[place].ok(front));
        assert(import.ty.ok(front));
        lemma_still_used_as(early.types, late.types, export.1, import.ty);
        assert(offers(late.component, late.types, args[k], j, import));
    }
    assert forall|k: int| 0 <= k < args.len() implies (#[trigger] args[k]).instance
        < early.component.instances.len() by {
        assert(module_instance(early.component, early.types, args[k].instance));
    }
}

proof fn lemma_still_exports(early: Moment, late: Moment, instance: u32)
    requires
        grown_from(early, late),
        module_instance(early.component, early.types, instance),
    ensures
        module_instance(late.component, late.types, instance),
        exports_of(late.component, late.types, instance) == exports_of(
            early.component,
            early.types,
            instance,
        ),
{
    let place = early.component.instances[instance as int];
    assert(late.component.instances[instance as int] == place);
    assert(late.types[place as int] == early.types[place as int]);
}

proof fn lemma_still_used_as(
    types: Seq<DefinedTypeView>,
    more: Seq<DefinedTypeView>,
    a: EntityType,
    b: EntityType,
)
    requires
        starts_with(more, types),
        a.ok(types),
        b.ok(types),
        used_as(types, a, b),
    ensures
        used_as(more, a, b),
{
    match (a, b) {
        (EntityType::Func(p), EntityType::Func(q)) => {
            assert(more[p as int] == types[p as int]);
            assert(more[q as int] == types[q as int]);
        },
        (EntityType::Tag(p), EntityType::Tag(q)) => {
            assert(more[p as int] == types[p as int]);
            assert(more[q as int] == types[q as int]);
        },
        _ => {},
    }
}

} // verus!
