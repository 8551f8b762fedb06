//! The instances, aliases, modules and components of a component.

use super::component::{is_module_instance_type, out_of_bounds, ComponentState, ComponentView};
use super::module::{Module, ModuleView};
use super::names::{has_name, lemma_lookup, lookup, NameMap};
use super::subtypes::{is_sub_core, is_sub_entity, sub_core, sub_entity};
use super::types::{
    entities_ok, exports_ok, imports_ok, is_component_type, is_func_type, is_module_type,
    lemma_types_ok_push, starts_with, types_ok, ComponentDef, ComponentDefView, ComponentEntityType,
    DefinedType, DefinedTypeView, EntityType, ModuleDef, ModuleDefView, ModuleImport,
    ModuleImportView, TypeList,
};
use super::{check_max, max_check};
use crate::error::{error_at, number_error_at, viewed, BinaryReaderError, Result};
use crate::limits::{
    MAX_WASM_FUNCTIONS, MAX_WASM_GLOBALS, MAX_WASM_MEMORIES, MAX_WASM_TABLES, MAX_WASM_TAGS,
};
use crate::reader::component::exports::{ComponentExport, ComponentExportView};
use crate::reader::component::items::{
    Alias, AliasKind, AliasView, Instance, InstanceView, ModuleArg, ModuleArgView,
};
use crate::reader::types::{views, Export, ExportView, ExternalKind};
use vstd::prelude::*;

verus! {

/// No two imports have the same names.
pub open spec fn imports_once(imports: Seq<ModuleImportView>) -> bool {
    forall|i: int, j: int|
        0 <= i < j < imports.len() ==> !same_import(#[trigger] imports[i], #[trigger] imports[j])
}

/// Two imports have the same names.
pub open spec fn same_import(a: ModuleImportView, b: ModuleImportView) -> bool {
    a.module == b.module && a.name == b.name
}

/// The type of a module: what it imports, each thing once, and what it exports.
pub open spec fn module_def(module: ModuleView, offset: int) -> Result<ModuleDefView> {
    if imports_once(module.imports) {
        Ok(ModuleDefView { imports: module.imports, exports: module.exports })
    } else {
        Err(error_at("duplicate import name already defined", offset))
    }
}

/// Checks that what a module imports, from the `i`th import on, is among the
/// exports of the instances that it is given.
pub open spec fn module_imports_given(
    types: Seq<DefinedTypeView>,
    imports: Seq<ModuleImportView>,
    i: int,
    args: Seq<(Seq<char>, usize)>,
    offset: int,
) -> Result<()>
    decreases imports.len() - i,
{
    if i < 0 || i >= imports.len() {
        Ok(())
    } else {
        match lookup(args, imports[i].module) {
            None => Err(error_at("missing module instantiation argument", offset)),
            Some(place) => match lookup(
                types[place as int]->ModuleInstance_0,
                imports[i].name,
            ) {
                None => Err(
                    error_at(
                        "module instantiation argument does not export an item that is imported",
                        offset,
                    ),
                ),
                Some(ty) => if !sub_core(types, ty, imports[i].ty) {
                    Err(
                        error_at(
                            "module instantiation argument exports an item of an unexpected type",
                            offset,
                        ),
                    )
                } else {
                    module_imports_given(types, imports, i + 1, args, offset)
                },
            },
        }
    }
}

/// Checks that what a component imports, from the `i`th import on, is given.
pub open spec fn component_imports_given(
    types: Seq<DefinedTypeView>,
    imports: Seq<(Seq<char>, ComponentEntityType)>,
    i: int,
    args: Seq<(Seq<char>, ComponentEntityType)>,
    offset: int,
) -> Result<()>
    decreases imports.len() - i,
{
    if i < 0 || i >= imports.len() {
        Ok(())
    } else {
        match lookup(args, imports[i].0) {
            None => Err(error_at("missing component instantiation argument", offset)),
            Some(ty) => if !sub_entity(types, ty, imports[i].1) {
                Err(
                    error_at("component instantiation argument is of an unexpected type", offset),
                )
            } else {
                component_imports_given(types, imports, i + 1, args, offset)
            },
        }
    }
}

/// An alias of a kind can stand for something of a component of a type.
pub open spec fn alias_of(kind: AliasKind, ty: ComponentEntityType) -> bool {
    match ty {
        ComponentEntityType::Module(_) => kind == AliasKind::Module,
        ComponentEntityType::Component(_) => kind == AliasKind::Component,
        ComponentEntityType::Instance(_) => kind == AliasKind::Instance,
        ComponentEntityType::Func(_) => kind == AliasKind::ComponentFunc,
        ComponentEntityType::Value(_) => kind == AliasKind::Value,
        ComponentEntityType::Type(_) => false,
    }
}

/// An alias of a kind can stand for something of a module of a type.
pub open spec fn alias_of_core(kind: AliasKind, ty: EntityType) -> bool {
    match ty {
        EntityType::Func(_) => kind == AliasKind::Func,
        EntityType::Table(_) => kind == AliasKind::Table,
        EntityType::Memory(_) => kind == AliasKind::Memory,
        EntityType::Global(_) => kind == AliasKind::Global,
        EntityType::Tag(_) => kind == AliasKind::Tag,
    }
}

/// The kind is one of things of a component.
pub open spec fn component_kind(kind: AliasKind) -> bool {
    match kind {
        AliasKind::Module => true,
        AliasKind::Component => true,
        AliasKind::Instance => true,
        AliasKind::ComponentFunc => true,
        AliasKind::Value => true,
        _ => false,
    }
}

impl ComponentView {
    /// The instances that a module is given, from the `i`th on, behind those of `acc`.
    pub open spec fn module_args(
        self,
        types: Seq<DefinedTypeView>,
        args: Seq<ModuleArgView>,
        i: int,
        acc: Seq<(Seq<char>, usize)>,
        offset: int,
    ) -> Result<Seq<(Seq<char>, usize)>>
        decreases args.len() - i,
    {
        if i < 0 || i >= args.len() {
            Ok(acc)
        } else {
            match self.module_instance_at(types, args[i].instance, offset) {
                Err(e) => Err(e),
                Ok(place) => if has_name(acc, args[i].name) {
                    Err(error_at("duplicate module instantiation argument", offset))
                } else {
                    self.module_args(types, args, i + 1, acc.push((args[i].name, place)), offset)
                },
            }
        }
    }

    /// What an instance of a module exports.
    pub open spec fn instantiate_module(
        self,
        types: Seq<DefinedTypeView>,
        index: u32,
        args: Seq<ModuleArgView>,
        offset: int,
    ) -> Result<Seq<(Seq<char>, EntityType)>> {
        match self.module_at(index, offset) {
            Err(e) => Err(e),
            Ok(place) => match self.module_args(types, args, 0, Seq::empty(), offset) {
                Err(e) => Err(e),
                Ok(given) => {
                    let module = types[place as int]->Module_0;
                    match module_imports_given(types, module.imports, 0, given, offset) {
                        Err(e) => Err(e),
                        Ok(_) => Ok(module.exports),
                    }
                },
            },
        }
    }

    /// What a component is given, or an instance exports, from the `i`th on, behind
    /// those of `acc`. `duplicate` is the error for a name that comes twice.
    pub open spec fn component_args(
        self,
        types: Seq<DefinedTypeView>,
        args: Seq<ComponentExportView>,
        i: int,
        acc: Seq<(Seq<char>, ComponentEntityType)>,
        duplicate: &'static str,
        offset: int,
    ) -> (ComponentView, Result<Seq<(Seq<char>, ComponentEntityType)>>)
        decreases args.len() - i,
    {
        if i < 0 || i >= args.len() {
            (self, Ok(acc))
        } else {
            match self.kind_type(types, args[i].kind, offset) {
                (c, Err(e)) => (c, Err(e)),
                (c, Ok(ty)) => if has_name(acc, args[i].name) {
                    (c, Err(error_at(duplicate, offset)))
                } else {
                    c.component_args(
                        types,
                        args,
                        i + 1,
                        acc.push((args[i].name, ty)),
                        duplicate,
                        offset,
                    )
                },
            }
        }
    }

    /// What an instance of a component exports.
    pub open spec fn instantiate_component(
        self,
        types: Seq<DefinedTypeView>,
        index: u32,
        args: Seq<ComponentExportView>,
        offset: int,
    ) -> (ComponentView, Result<Seq<(Seq<char>, ComponentEntityType)>>) {
        match self.component_at(index, offset) {
            Err(e) => (self, Err(e)),
            Ok(place) => match self.component_args(
                types,
                args,
                0,
                Seq::empty(),
                "duplicate component instantiation argument",
                offset,
            ) {
                (c, Err(e)) => (c, Err(e)),
                (c, Ok(given)) => {
                    let component = types[place as int]->Component_0;
                    match component_imports_given(types, component.imports, 0, given, offset) {
                        Err(e) => (c, Err(e)),
                        Ok(_) => (c, Ok(component.exports)),
                    }
                },
            },
        }
    }

    /// The type of something of a module that an instance exports.
    pub open spec fn core_export(
        self,
        types: Seq<DefinedTypeView>,
        export: ExportView,
        offset: int,
    ) -> Result<EntityType> {
        let i = export.index as int;
        match export.kind {
            ExternalKind::Func => match self.core_function_at(types, export.index, offset) {
                Err(e) => Err(e),
                Ok(place) => Ok(EntityType::Func(place)),
            },
            ExternalKind::Table => if i < self.tables.len() {
                Ok(EntityType::Table(self.tables[i]))
            } else {
                Err(
                    out_of_bounds(
                        "unknown table ",
                        export.index,
                        ": table index out of bounds",
                        offset,
                    ),
                )
            },
            ExternalKind::Memory => if i < self.memories.len() {
                Ok(EntityType::Memory(self.memories[i]))
            } else {
                Err(
                    out_of_bounds(
                        "unknown memory ",
                        export.index,
                        ": memory index out of bounds",
                        offset,
                    ),
                )
            },
            ExternalKind::Global => if i < self.globals.len() {
                Ok(EntityType::Global(self.globals[i]))
            } else {
                Err(
                    out_of_bounds(
                        "unknown global ",
                        export.index,
                        ": global index out of bounds",
                        offset,
                    ),
                )
            },
            ExternalKind::Tag => if i < self.tags.len() {
                Ok(EntityType::Tag(self.tags[i]))
            } else {
                Err(
                    out_of_bounds(
                        "unknown tag ",
                        export.index,
                        ": tag index out of bounds",
                        offset,
                    ),
                )
            },
        }
    }

    /// What an instance of a module exports, from the `i`th on, behind those of `acc`.
    pub open spec fn core_exports(
        self,
        types: Seq<DefinedTypeView>,
        exports: Seq<ExportView>,
        i: int,
        acc: Seq<(Seq<char>, EntityType)>,
        offset: int,
    ) -> Result<Seq<(Seq<char>, EntityType)>>
        decreases exports.len() - i,
    {
        if i < 0 || i >= exports.len() {
            Ok(acc)
        } else {
            match self.core_export(types, exports[i], offset) {
                Err(e) => Err(e),
                Ok(ty) => if has_name(acc, exports[i].name) {
                    Err(error_at("duplicate instantiation export name already defined", offset))
                } else {
                    self.core_exports(
                        types,
                        exports,
                        i + 1,
                        acc.push((exports[i].name, ty)),
                        offset,
                    )
                },
            }
        }
    }

    /// The type of an instance.
    pub open spec fn instance_type(
        self,
        types: Seq<DefinedTypeView>,
        instance: InstanceView,
        offset: int,
    ) -> (ComponentView, Result<DefinedTypeView>) {
        match instance {
            InstanceView::Module { index, args } => match self.instantiate_module(
                types,
                index,
                args,
                offset,
            ) {
                Err(e) => (self, Err(e)),
                Ok(exports) => (self, Ok(DefinedTypeView::ModuleInstance(exports))),
            },
            InstanceView::Component { index, args } => match self.instantiate_component(
                types,
                index,
                args,
                offset,
            ) {
                (c, Err(e)) => (c, Err(e)),
                (c, Ok(exports)) => (c, Ok(DefinedTypeView::Instance(exports))),
            },
            InstanceView::ModuleFromExports(exports) => match self.core_exports(
                types,
                exports,
                0,
                Seq::empty(),
                offset,
            ) {
                Err(e) => (self, Err(e)),
                Ok(exports) => (self, Ok(DefinedTypeView::ModuleInstance(exports))),
            },
            InstanceView::ComponentFromExports(exports) => match self.component_args(
                types,
                exports,
                0,
                Seq::empty(),
                "duplicate instantiation export name already defined",
                offset,
            ) {
                (c, Err(e)) => (c, Err(e)),
                (c, Ok(exports)) => (c, Ok(DefinedTypeView::Instance(exports))),
            },
        }
    }

    /// Adds an instance.
    pub open spec fn add_instance(
        self,
        types: Seq<DefinedTypeView>,
        instance: InstanceView,
        offset: int,
    ) -> (ComponentView, Seq<DefinedTypeView>, Result<()>) {
        match self.instance_type(types, instance, offset) {
            (c, Err(e)) => (c, types, Err(e)),
            (c, Ok(ty)) => (
                ComponentView { instances: c.instances.push(types.len() as usize), ..c },
                types.push(ty),
                Ok(()),
            ),
        }
    }

    /// The component with something more, if there can be more of it.
    pub open spec fn bring_checked(self, ty: ComponentEntityType, offset: int) -> (
        ComponentView,
        Result<()>,
    ) {
        match self.limit(ty, 1, offset) {
            Err(e) => (self, Err(e)),
            Ok(_) => (self.bring(ty), Ok(())),
        }
    }

    /// The component with something more of a module, if there can be more of it.
    pub open spec fn bring_core(self, ty: EntityType, offset: int) -> (ComponentView, Result<()>) {
        match ty {
            EntityType::Func(place) => match max_check(
                self.functions.len() as int,
                1,
                MAX_WASM_FUNCTIONS,
                "functions",
                offset,
            ) {
                Err(e) => (self, Err(e)),
                Ok(_) => (
                    ComponentView { functions: self.functions.push(place), ..self },
                    Ok(()),
                ),
            },
            EntityType::Table(ty) => match max_check(
                self.tables.len() as int,
                1,
                MAX_WASM_TABLES,
                "tables",
                offset,
            ) {
                Err(e) => (self, Err(e)),
                Ok(_) => (ComponentView { tables: self.tables.push(ty), ..self }, Ok(())),
            },
            EntityType::Memory(ty) => match max_check(
                self.memories.len() as int,
                1,
                MAX_WASM_MEMORIES,
                "memories",
                offset,
            ) {
                Err(e) => (self, Err(e)),
                Ok(_) => (ComponentView { memories: self.memories.push(ty), ..self }, Ok(())),
            },
            EntityType::Global(ty) => match max_check(
                self.globals.len() as int,
                1,
                MAX_WASM_GLOBALS,
                "globals",
                offset,
            ) {
                Err(e) => (self, Err(e)),
                Ok(_) => (ComponentView { globals: self.globals.push(ty), ..self }, Ok(())),
            },
            EntityType::Tag(place) => match max_check(
                self.tags.len() as int,
                1,
                MAX_WASM_TAGS,
                "tags",
                offset,
            ) {
                Err(e) => (self, Err(e)),
                Ok(_) => (ComponentView { tags: self.tags.push(place), ..self }, Ok(())),
            },
        }
    }

    /// Adds an alias for an export of an instance.
    pub open spec fn alias_export(
        self,
        types: Seq<DefinedTypeView>,
        kind: AliasKind,
        instance: u32,
        name: Seq<char>,
        offset: int,
    ) -> (ComponentView, Result<()>) {
        if component_kind(kind) {
            match self.component_instance_at(types, instance, offset) {
                Err(e) => (self, Err(e)),
                Ok(place) => match lookup(types[place as int]->Instance_0, name) {
                    None => (
                        self,
                        Err(
                            out_of_bounds(
                                "instance ",
                                instance,
                                " has no export with the name of the alias",
                                offset,
                            ),
                        ),
                    ),
                    Some(ty) => if !alias_of(kind, ty) {
                        (
                            self,
                            Err(
                                out_of_bounds(
                                    "export of instance ",
                                    instance,
                                    " is not of the kind of the alias",
                                    offset,
                                ),
                            ),
                        )
                    } else {
                        self.bring_checked(ty, offset)
                    },
                },
            }
        } else {
            match self.module_instance_at(types, instance, offset) {
                Err(e) => (self, Err(e)),
                Ok(place) => match lookup(types[place as int]->ModuleInstance_0, name) {
                    None => (
                        self,
                        Err(
                            out_of_bounds(
                                "instance ",
                                instance,
                                " has no export with the name of the alias",
                                offset,
                            ),
                        ),
                    ),
                    Some(ty) => if !alias_of_core(kind, ty) {
                        (
                            self,
                            Err(
                                out_of_bounds(
                                    "export of instance ",
                                    instance,
                                    " is not of the kind of the alias",
                                    offset,
                                ),
                            ),
                        )
                    } else {
                        self.bring_core(ty, offset)
                    },
                },
            }
        }
    }

    /// The component `count` further out; `outer` are those around this one.
    pub open spec fn further_out(self, outer: Seq<ComponentView>, count: u32, offset: int) -> Result<
        ComponentView,
    > {
        if count > outer.len() {
            Err(number_error_at("invalid outer alias count of ", count as int, "", offset))
        } else if count == 0 {
            Ok(self)
        } else {
            Ok(outer[outer.len() - count])
        }
    }

    /// What an alias for something further out stands for.
    pub open spec fn outer_entity(
        self,
        outer: Seq<ComponentView>,
        alias: AliasView,
        offset: int,
    ) -> Result<ComponentEntityType> {
        match alias {
            AliasView::OuterModule { count, index } => match self.further_out(
                outer,
                count,
                offset,
            ) {
                Err(e) => Err(e),
                Ok(component) => match component.module_at(index, offset) {
                    Err(e) => Err(e),
                    Ok(place) => Ok(ComponentEntityType::Module(place)),
                },
            },
            AliasView::OuterComponent { count, index } => match self.further_out(
                outer,
                count,
                offset,
            ) {
                Err(e) => Err(e),
                Ok(component) => match component.component_at(index, offset) {
                    Err(e) => Err(e),
                    Ok(place) => Ok(ComponentEntityType::Component(place)),
                },
            },
            AliasView::OuterType { count, index } => self.outer_type(outer, count, index, offset),
            AliasView::InstanceExport { .. } => Err(error_at("unknown alias", offset)),
        }
    }

    /// What an alias for a type further out stands for.
    pub open spec fn outer_type(
        self,
        outer: Seq<ComponentView>,
        count: u32,
        index: u32,
        offset: int,
    ) -> Result<ComponentEntityType> {
        match self.further_out(outer, count, offset) {
            Err(e) => Err(e),
            Ok(component) => match component.type_at(index, offset) {
                Err(e) => Err(e),
                Ok(place) => Ok(ComponentEntityType::Type(place)),
            },
        }
    }

    /// Adds an alias; `outer` are the components around this one.
    pub open spec fn add_alias(
        self,
        outer: Seq<ComponentView>,
        types: Seq<DefinedTypeView>,
        alias: AliasView,
        offset: int,
    ) -> (ComponentView, Result<()>) {
        match alias {
            AliasView::InstanceExport { kind, instance, name } => self.alias_export(
                types,
                kind,
                instance,
                name,
                offset,
            ),
            _ => match self.outer_entity(outer, alias, offset) {
                Err(e) => (self, Err(e)),
                Ok(ty) => self.bring_checked(ty, offset),
            },
        }
    }

    /// Adds a type that stands further out.
    pub open spec fn alias_type(
        self,
        outer: Seq<ComponentView>,
        count: u32,
        index: u32,
        offset: int,
    ) -> (ComponentView, Result<()>) {
        match self.outer_type(outer, count, index, offset) {
            Err(e) => (self, Err(e)),
            Ok(ty) => self.bring_checked(ty, offset),
        }
    }

    /// Adds a module.
    pub open spec fn add_module(
        self,
        types: Seq<DefinedTypeView>,
        module: ModuleView,
        offset: int,
    ) -> (ComponentView, Seq<DefinedTypeView>, Result<()>) {
        match module_def(module, offset) {
            Err(e) => (self, types, Err(e)),
            Ok(def) => (
                ComponentView { modules: self.modules.push(types.len() as usize), ..self },
                types.push(DefinedTypeView::Module(def)),
                Ok(()),
            ),
        }
    }

    /// The type of the component.
    pub open spec fn def(self) -> ComponentDefView {
        ComponentDefView { imports: self.imports, exports: self.exports }
    }

    /// Adds a component.
    pub open spec fn add_component(
        self,
        types: Seq<DefinedTypeView>,
        component: ComponentView,
    ) -> (ComponentView, Seq<DefinedTypeView>) {
        (
            ComponentView { components: self.components.push(types.len() as usize), ..self },
            types.push(DefinedTypeView::Component(component.def())),
        )
    }
}

/// All that each component of a stack says of types is true of `types`.
pub open spec fn stack_ok(stack: Seq<ComponentView>, types: Seq<DefinedTypeView>) -> bool {
    forall|i: int| 0 <= i < stack.len() ==> (#[trigger] stack[i]).wf(types)
}

/// What a component says of types stays true when there are more types.
pub proof fn lemma_component_longer(
    component: ComponentView,
    start: Seq<DefinedTypeView>,
    list: Seq<DefinedTypeView>,
)
    requires
        component.wf(start),
        starts_with(list, start),
    ensures
        component.wf(list),
{
}

impl Module {
    /// The type of the module.
    pub fn type_of(&self, offset: usize) -> (result: Result<ModuleDef>)
        ensures
            viewed(result) == module_def(self@, offset as int),
    {
        let mut imports: Vec<ModuleImport> = Vec::new();
        let mut i: usize = 0;
        assert(views(imports@) =~= self@.imports.take(0));
        while i < self.imports.len()
            invariant
                i <= self.imports@.len(),
                views(imports@) == self@.imports.take(i as int),
                imports_once(self@.imports.take(i as int)),
            decreases self.imports@.len() - i,
        {
            let import = &self.imports[i];
            assert(self@.imports[i as int] == import@);
            let mut k: usize = 0;
            while k < i
                invariant
                    k <= i < self.imports@.len(),
                    import@ == self@.imports[i as int],
                    forall|j: int|
                        0 <= j < k ==> !same_import(#[trigger] self@.imports[j], import@),
                decreases i - k,
            {
                assert(self@.imports[k as int] == self.imports@[k as int]@);
                if self.imports[k].module.eq(&import.module) && self.imports[k].name.eq(
                    &import.name,
                ) {
                    assert(same_import(self@.imports[k as int], self@.imports[i as int]));
                    return Err(
                        BinaryReaderError::new("duplicate import name already defined", offset),
                    );
                }
                k = k + 1;
            }
            let ghost before = views(imports@);
            imports.push(
                ModuleImport {
                    module: import.module.clone(),
                    name: import.name.clone(),
                    ty: import.ty,
                },
            );
            assert(views(imports@) =~= before.push(import@));
            assert(self@.imports.take(i + 1) =~= before.push(import@));
            i = i + 1;
        }
        assert(self@.imports.take(i as int) =~= self@.imports);
        Ok(ModuleDef { imports, exports: self.exports.copy() })
    }
}

fn check_module_imports(
    types: &TypeList,
    imports: &Vec<ModuleImport>,
    args: &NameMap<usize>,
    offset: usize,
) -> (result: Result<()>)
    requires
        types_ok(types@),
        imports_ok(views(imports@), types@),
        forall|i: int|
            0 <= i < args@.len() ==> is_module_instance_type(types@, (#[trigger] args@[i]).1),
    ensures
        result == module_imports_given(types@, views(imports@), 0, args@, offset as int),
{
    let mut i: usize = 0;
    while i < imports.len()
        invariant
            i <= imports@.len(),
            types_ok(types@),
            imports_ok(views(imports@), types@),
            forall|i: int|
                0 <= i < args@.len() ==> is_module_instance_type(types@, (#[trigger] args@[i]).1),
            module_imports_given(types@, views(imports@), 0, args@, offset as int)
                == module_imports_given(types@, views(imports@), i as int, args@, offset as int),
        decreases imports@.len() - i,
    {
        let import = &imports[i];
        assert(views(imports@)[i as int] == import@);
        let place = match args.get(import.module.as_str()) {
            Some(place) => *place,
            None => {
                return Err(BinaryReaderError::new("missing module instantiation argument", offset));
            },
        };
        proof {
            lemma_lookup(args@, import.module@);
        }
        let exports = types.module_instance(place);
        assert(types@[place as int].ok(types@.take(place as int)));
        let ty = match exports.get(import.name.as_str()) {
            Some(ty) => *ty,
            None => {
                return Err(
                    BinaryReaderError::new(
                        "module instantiation argument does not export an item that is imported",
                        offset,
                    ),
                );
            },
        };
        proof {
            lemma_lookup(exports@, import.name@);
        }
        if !is_sub_core(types, ty, import.ty) {
            return Err(
                BinaryReaderError::new(
                    "module instantiation argument exports an item of an unexpected type",
                    offset,
                ),
            );
        }
        i = i + 1;
    }
    Ok(())
}

fn check_component_imports(
    types: &TypeList,
    imports: &NameMap<ComponentEntityType>,
    args: &NameMap<ComponentEntityType>,
    offset: usize,
) -> (result: Result<()>)
    requires
        types_ok(types@),
        entities_ok(imports@, types@),
        entities_ok(args@, types@),
    ensures
        result == component_imports_given(types@, imports@, 0, args@, offset as int),
{
    let mut i: usize = 0;
    while i < imports.len()
        invariant
            i <= imports@.len(),
            types_ok(types@),
            entities_ok(imports@, types@),
            entities_ok(args@, types@),
            component_imports_given(types@, imports@, 0, args@, offset as int)
                == component_imports_given(types@, imports@, i as int, args@, offset as int),
        decreases imports@.len() - i,
    {
        let import = imports.entry(i);
        assert(imports@[i as int] == (import.name@, import.value));
        let ty = match args.get(import.name.as_str()) {
            Some(ty) => *ty,
            None => {
                return Err(
                    BinaryReaderError::new("missing component instantiation argument", offset),
                );
            },
        };
        proof {
            lemma_lookup(args@, import.name@);
        }
        if !is_sub_entity(types, ty, import.value) {
            return Err(
                BinaryReaderError::new(
                    "component instantiation argument is of an unexpected type",
                    offset,
                ),
            );
        }
        i = i + 1;
    }
    Ok(())
}

impl ComponentState {
    fn read_module_args(&self, args: &Vec<ModuleArg<'_>>, types: &TypeList, offset: usize) -> (result:
        Result<NameMap<usize>>)
        requires
            types_ok(types@),
            self@.wf(types@),
        ensures
            viewed(result) == self@.module_args(
                types@,
                views(args@),
                0,
                Seq::empty(),
                offset as int,
            ),
            result matches Ok(map) ==> forall|i: int|
                0 <= i < map@.len() ==> is_module_instance_type(types@, (#[trigger] map@[i]).1),
    {
        let mut map: NameMap<usize> = NameMap::new();
        let mut i: usize = 0;
        while i < args.len()
            invariant
                i <= args@.len(),
                types_ok(types@),
                self@.wf(types@),
                forall|i: int|
                    0 <= i < map@.len() ==> is_module_instance_type(types@, (#[trigger] map@[i]).1),
                self@.module_args(types@, views(args@), 0, Seq::empty(), offset as int)
                    == self@.module_args(types@, views(args@), i as int, map@, offset as int),
            decreases args@.len() - i,
        {
            assert(views(args@)[i as int] == args@[i as int]@);
            let place = self.module_instance_at(args[i].instance, types, offset)?;
            if !map.insert(args[i].name, place) {
                return Err(
                    BinaryReaderError::new("duplicate module instantiation argument", offset),
                );
            }
            i = i + 1;
        }
        Ok(map)
    }

    fn instantiate_module(
        &self,
        index: u32,
        args: &Vec<ModuleArg<'_>>,
        types: &TypeList,
        offset: usize,
    ) -> (result: Result<NameMap<EntityType>>)
        requires
            types_ok(types@),
            self@.wf(types@),
        ensures
            viewed(result) == self@.instantiate_module(types@, index, views(args@), offset as int),
            result matches Ok(exports) ==> exports_ok(exports@, types@),
    {
        let place = self.module_at(index, offset)?;
        assert(is_module_type(types@, place));
        let given = self.read_module_args(args, types, offset)?;
        let module = types.module(place);
        assert(types@[place as int].ok(types@.take(place as int)));
        check_module_imports(types, &module.imports, &given, offset)?;
        Ok(module.exports.copy())
    }

    fn read_component_args(
        &mut self,
        args: &Vec<ComponentExport<'_>>,
        duplicate: &'static str,
        types: &TypeList,
        offset: usize,
    ) -> (result: Result<NameMap<ComponentEntityType>>)
        requires
            types_ok(types@),
            old(self)@.wf(types@),
        ensures
            final(self)@.wf(types@),
            (final(self)@, viewed(result)) == old(self)@.component_args(
                types@,
                views(args@),
                0,
                Seq::empty(),
                duplicate,
                offset as int,
            ),
            result matches Ok(map) ==> entities_ok(map@, types@),
    {
        let mut map: NameMap<ComponentEntityType> = NameMap::new();
        let mut i: usize = 0;
        while i < args.len()
            invariant
                i <= args@.len(),
                types_ok(types@),
                self@.wf(types@),
                entities_ok(map@, types@),
                old(self)@.component_args(
                    types@,
                    views(args@),
                    0,
                    Seq::empty(),
                    duplicate,
                    offset as int,
                ) == self@.component_args(
                    types@,
                    views(args@),
                    i as int,
                    map@,
                    duplicate,
                    offset as int,
                ),
            decreases args@.len() - i,
        {
            assert(views(args@)[i as int] == args@[i as int]@);
            let ty = self.kind_type(args[i].kind, types, offset)?;
            if !map.insert(args[i].name, ty) {
                return Err(BinaryReaderError::new(duplicate, offset));
            }
            i = i + 1;
        }
        Ok(map)
    }

    fn instantiate_component(
        &mut self,
        index: u32,
        args: &Vec<ComponentExport<'_>>,
        types: &TypeList,
        offset: usize,
    ) -> (result: Result<NameMap<ComponentEntityType>>)
        requires
            types_ok(types@),
            old(self)@.wf(types@),
        ensures
            final(self)@.wf(types@),
            (final(self)@, viewed(result)) == old(self)@.instantiate_component(
                types@,
                index,
                views(args@),
                offset as int,
            ),
            result matches Ok(exports) ==> entities_ok(exports@, types@),
    {
        let place = self.component_at(index, offset)?;
        assert(is_component_type(types@, place));
        let given = self.read_component_args(
            args,
            "duplicate component instantiation argument",
            types,
            offset,
        )?;
        let component = types.component(place);
        assert(types@[place as int].ok(types@.take(place as int)));
        check_component_imports(types, &component.imports, &given, offset)?;
        Ok(component.exports.copy())
    }

    fn core_export(&self, export: &Export<'_>, types: &TypeList, offset: usize) -> (result: Result<
        EntityType,
    >)
        requires
            self@.wf(types@),
        ensures
            result == self@.core_export(types@, export@, offset as int),
            result matches Ok(ty) ==> ty.ok(types@),
    {
        let index = export.index as usize;
        match export.kind {
            ExternalKind::Func => Ok(
                EntityType::Func(self.core_function_at(export.index, types, offset)?),
            ),
            ExternalKind::Table => if index < self.tables.len() {
                Ok(EntityType::Table(self.tables[index]))
            } else {
                Err(
                    BinaryReaderError::with_number(
                        "unknown table ",
                        index as u64,
                        ": table index out of bounds",
                        offset,
                    ),
                )
            },
            ExternalKind::Memory => if index < self.memories.len() {
                Ok(EntityType::Memory(self.memories[index]))
            } else {
                Err(
                    BinaryReaderError::with_number(
                        "unknown memory ",
                        index as u64,
                        ": memory index out of bounds",
                        offset,
                    ),
                )
            },
            ExternalKind::Global => if index < self.globals.len() {
                Ok(EntityType::Global(self.globals[index]))
            } else {
                Err(
                    BinaryReaderError::with_number(
                        "unknown global ",
                        index as u64,
                        ": global index out of bounds",
                        offset,
                    ),
                )
            },
            ExternalKind::Tag => if index < self.tags.len() {
                assert(is_func_type(types@, self@.tags[index as int]));
                Ok(EntityType::Tag(self.tags[index]))
            } else {
                Err(
                    BinaryReaderError::with_number(
                        "unknown tag ",
                        index as u64,
                        ": tag index out of bounds",
                        offset,
                    ),
                )
            },
        }
    }

    fn core_exports(&self, exports: &Vec<Export<'_>>, types: &TypeList, offset: usize) -> (result:
        Result<NameMap<EntityType>>)
        requires
            self@.wf(types@),
        ensures
            viewed(result) == self@.core_exports(
                types@,
                views(exports@),
                0,
                Seq::empty(),
                offset as int,
            ),
            result matches Ok(map) ==> exports_ok(map@, types@),
    {
        let mut map: NameMap<EntityType> = NameMap::new();
        let mut i: usize = 0;
        while i < exports.len()
            invariant
                i <= exports@.len(),
                self@.wf(types@),
                exports_ok(map@, types@),
                self@.core_exports(types@, views(exports@), 0, Seq::empty(), offset as int)
                    == self@.core_exports(types@, views(exports@), i as int, map@, offset as int),
            decreases exports@.len() - i,
        {
            assert(views(exports@)[i as int] == exports@[i as int]@);
            let ty = self.core_export(&exports[i], types, offset)?;
            if !map.insert(exports[i].name, ty) {
                return Err(
                    BinaryReaderError::new(
                        "duplicate instantiation export name already defined",
                        offset,
                    ),
                );
            }
            i = i + 1;
        }
        Ok(map)
    }

    fn instance_type(&mut self, instance: &Instance<'_>, types: &TypeList, offset: usize) -> (result:
        Result<DefinedType>)
        requires
            types_ok(types@),
            old(self)@.wf(types@),
        ensures
            final(self)@.wf(types@),
            (final(self)@, viewed(result)) == old(self)@.instance_type(
                types@,
                instance@,
                offset as int,
            ),
            result matches Ok(ty) ==> ty@.ok(types@) && (ty is Instance || ty is ModuleInstance),
    {
        match instance {
            Instance::Module { index, args } => Ok(
                DefinedType::ModuleInstance(self.instantiate_module(*index, args, types, offset)?),
            ),
            Instance::Component { index, args } => Ok(
                DefinedType::Instance(self.instantiate_component(*index, args, types, offset)?),
            ),
            Instance::ModuleFromExports(exports) => Ok(
                DefinedType::ModuleInstance(self.core_exports(exports, types, offset)?),
            ),
            Instance::ComponentFromExports(exports) => Ok(
                DefinedType::Instance(
                    self.read_component_args(
                        exports,
                        "duplicate instantiation export name already defined",
                        types,
                        offset,
                    )?,
                ),
            ),
        }
    }

    /// Adds an instance.
    pub fn add_instance(&mut self, instance: &Instance<'_>, types: &mut TypeList, offset: usize) -> (
    result: Result<()>)
        requires
            types_ok(old(types)@),
            old(self)@.wf(old(types)@),
        ensures
            types_ok(final(types)@),
            starts_with(final(types)@, old(types)@),
            final(self)@.wf(final(types)@),
            (final(self)@, final(types)@, result) == old(self)@.add_instance(
                old(types)@,
                instance@,
                offset as int,
            ),
    {
        let ty = self.instance_type(instance, types, offset)?;
        let ghost c = self@;
        proof {
            lemma_types_ok_push(types@, ty@);
            lemma_component_longer(c, types@, types@.push(ty@));
        }
        let place = types.push(ty);
        self.instances.push(place);
        assert(self@ == (ComponentView { instances: c.instances.push(place), ..c }));
        Ok(())
    }

    fn bring_checked(&mut self, ty: ComponentEntityType, offset: usize) -> (result: Result<()>)
        ensures
            (final(self)@, result) == old(self)@.bring_checked(ty, offset as int),
    {
        self.check_limit(ty, 1, offset)?;
        self.bring(ty);
        Ok(())
    }

    fn bring_core(&mut self, ty: EntityType, offset: usize) -> (result: Result<()>)
        ensures
            (final(self)@, result) == old(self)@.bring_core(ty, offset as int),
    {
        match ty {
            EntityType::Func(place) => {
                check_max(self.functions.len(), 1, MAX_WASM_FUNCTIONS, "functions", offset)?;
                self.functions.push(place);
            },
            EntityType::Table(ty) => {
                check_max(self.tables.len(), 1, MAX_WASM_TABLES, "tables", offset)?;
                self.tables.push(ty);
            },
            EntityType::Memory(ty) => {
                check_max(self.memories.len(), 1, MAX_WASM_MEMORIES, "memories", offset)?;
                self.memories.push(ty);
            },
            EntityType::Global(ty) => {
                check_max(self.globals.len(), 1, MAX_WASM_GLOBALS, "globals", offset)?;
                self.globals.push(ty);
            },
            EntityType::Tag(place) => {
                check_max(self.tags.len(), 1, MAX_WASM_TAGS, "tags", offset)?;
                self.tags.push(place);
            },
        }
        Ok(())
    }

    fn alias_export(
        &mut self,
        kind: AliasKind,
        instance: u32,
        name: &str,
        types: &TypeList,
        offset: usize,
    ) -> (result: Result<()>)
        requires
            types_ok(types@),
            old(self)@.wf(types@),
        ensures
            final(self)@.wf(types@),
            (final(self)@, result) == old(self)@.alias_export(
                types@,
                kind,
                instance,
                name@,
                offset as int,
            ),
    {
        if is_component_kind(kind) {
            let place = self.component_instance_at(instance, types, offset)?;
            assert(types@[place as int].ok(types@.take(place as int)));
            let exports = types.instance(place);
            let ty = match exports.get(name) {
                Some(ty) => *ty,
                None => {
                    return Err(
                        BinaryReaderError::with_number(
                            "instance ",
                            instance as u64,
                            " has no export with the name of the alias",
                            offset,
                        ),
                    );
                },
            };
            proof {
                lemma_lookup(exports@, name@);
            }
            if !is_alias_of(kind, ty) {
                return Err(
                    BinaryReaderError::with_number(
                        "export of instance ",
                        instance as u64,
                        " is not of the kind of the alias",
                        offset,
                    ),
                );
            }
            self.bring_checked(ty, offset)
        } else {
            let place = self.module_instance_at(instance, types, offset)?;
            assert(types@[place as int].ok(types@.take(place as int)));
            let exports = types.module_instance(place);
            let ty = match exports.get(name) {
                Some(ty) => *ty,
                None => {
                    return Err(
                        BinaryReaderError::with_number(
                            "instance ",
                            instance as u64,
                            " has no export with the name of the alias",
                            offset,
                        ),
                    );
                },
            };
            proof {
                lemma_lookup(exports@, name@);
            }
            if !is_alias_of_core(kind, ty) {
                return Err(
                    BinaryReaderError::with_number(
                        "export of instance ",
                        instance as u64,
                        " is not of the kind of the alias",
                        offset,
                    ),
                );
            }
            self.bring_core(ty, offset)
        }
    }

    /// Adds a module.
    pub fn add_module(&mut self, module: &Module, types: &mut TypeList, offset: usize) -> (result:
        Result<()>)
        requires
            types_ok(old(types)@),
            old(self)@.wf(old(types)@),
            module@.wf(old(types)@),
        ensures
            types_ok(final(types)@),
            starts_with(final(types)@, old(types)@),
            final(self)@.wf(final(types)@),
            (final(self)@, final(types)@, result) == old(self)@.add_module(
                old(types)@,
                module@,
                offset as int,
            ),
    {
        let def = module.type_of(offset)?;
        let ghost c = self@;
        proof {
            lemma_types_ok_push(types@, DefinedTypeView::Module(def@));
            lemma_component_longer(c, types@, types@.push(DefinedTypeView::Module(def@)));
        }
        let place = types.push(DefinedType::Module(def));
        self.modules.push(place);
        assert(self@ == (ComponentView { modules: c.modules.push(place), ..c }));
        Ok(())
    }

    /// Adds a component, whose imports and exports go to its type.
    pub fn add_component(&mut self, component: &mut ComponentState, types: &mut TypeList)
        requires
            types_ok(old(types)@),
            old(self)@.wf(old(types)@),
            old(component)@.wf(old(types)@),
        ensures
            types_ok(final(types)@),
            starts_with(final(types)@, old(types)@),
            final(self)@.wf(final(types)@),
            (final(self)@, final(types)@) == old(self)@.add_component(
                old(types)@,
                old(component)@,
            ),
            final(component)@ == (ComponentView {
                imports: Seq::empty(),
                exports: Seq::empty(),
                ..old(component)@
            }),
    {
        let mut imports: NameMap<ComponentEntityType> = NameMap::new();
        let mut exports: NameMap<ComponentEntityType> = NameMap::new();
        std::mem::swap(&mut imports, &mut component.imports);
        std::mem::swap(&mut exports, &mut component.exports);
        let def = ComponentDef { imports, exports };
        let ghost c = self@;
        proof {
            lemma_types_ok_push(types@, DefinedTypeView::Component(def@));
            lemma_component_longer(c, types@, types@.push(DefinedTypeView::Component(def@)));
        }
        let place = types.push(DefinedType::Component(def));
        self.components.push(place);
        assert(self@ == (ComponentView { components: c.components.push(place), ..c }));
    }
}

fn is_component_kind(kind: AliasKind) -> (yes: bool)
    ensures
        yes == component_kind(kind),
{
    matches!(
        kind,
        AliasKind::Module | AliasKind::Component | AliasKind::Instance | AliasKind::ComponentFunc
        | AliasKind::Value
    )
}

fn is_alias_of(kind: AliasKind, ty: ComponentEntityType) -> (yes: bool)
    ensures
        yes == alias_of(kind, ty),
{
    matches!(
        (kind, ty),
        (AliasKind::Module, ComponentEntityType::Module(_))
        | (AliasKind::Component, ComponentEntityType::Component(_))
        | (AliasKind::Instance, ComponentEntityType::Instance(_))
        | (AliasKind::ComponentFunc, ComponentEntityType::Func(_))
        | (AliasKind::Value, ComponentEntityType::Value(_))
    )
}

fn is_alias_of_core(kind: AliasKind, ty: EntityType) -> (yes: bool)
    ensures
        yes == alias_of_core(kind, ty),
{
    matches!(
        (kind, ty),
        (AliasKind::Func, EntityType::Func(_))
        | (AliasKind::Table, EntityType::Table(_))
        | (AliasKind::Memory, EntityType::Memory(_))
        | (AliasKind::Global, EntityType::Global(_))
        | (AliasKind::Tag, EntityType::Tag(_))
    )
}

/// The components around the last one of a stack.
pub open spec fn around(stack: Seq<ComponentView>) -> Seq<ComponentView> {
    stack.drop_last()
}

fn further_out<'s>(components: &'s Vec<ComponentState>, count: u32, offset: usize) -> (result: Result<
    &'s ComponentState,
>)
    requires
        components@.len() > 0,
    ensures
        viewed(result) == views(components@).last().further_out(
            around(views(components@)),
            count,
            offset as int,
        ),
        result matches Ok(component) ==> exists|i: int|
            0 <= i < components@.len() && component@ == #[trigger] views(components@)[i],
{
    if count as usize >= components.len() {
        return Err(
            BinaryReaderError::with_number(
                "invalid outer alias count of ",
                count as u64,
                "",
                offset,
            ),
        );
    }
    let i = components.len() - 1 - count as usize;
    assert(views(components@)[i as int] == components@[i as int]@);
    Ok(&components[i])
}

fn outer_type(
    components: &Vec<ComponentState>,
    count: u32,
    index: u32,
    types: &TypeList,
    offset: usize,
) -> (result: Result<ComponentEntityType>)
    requires
        components@.len() > 0,
        stack_ok(views(components@), types@),
    ensures
        result == views(components@).last().outer_type(
            around(views(components@)),
            count,
            index,
            offset as int,
        ),
        result matches Ok(ty) ==> ty.ok(types@),
{
    let component = further_out(components, count, offset)?;
    Ok(ComponentEntityType::Type(component.type_at(index, offset)?))
}

fn outer_entity(
    components: &Vec<ComponentState>,
    alias: &Alias<'_>,
    types: &TypeList,
    offset: usize,
) -> (result: Result<ComponentEntityType>)
    requires
        components@.len() > 0,
        stack_ok(views(components@), types@),
    ensures
        result == views(components@).last().outer_entity(
            around(views(components@)),
            alias@,
            offset as int,
        ),
        result matches Ok(ty) ==> ty.ok(types@),
{
    match alias {
        Alias::OuterModule { count, index } => {
            let component = further_out(components, *count, offset)?;
            Ok(ComponentEntityType::Module(component.module_at(*index, offset)?))
        },
        Alias::OuterComponent { count, index } => {
            let component = further_out(components, *count, offset)?;
            Ok(ComponentEntityType::Component(component.component_at(*index, offset)?))
        },
        Alias::OuterType { count, index } => outer_type(components, *count, *index, types, offset),
        Alias::InstanceExport { .. } => Err(BinaryReaderError::new("unknown alias", offset)),
    }
}

impl ComponentState {
    /// Adds an alias to the last component of a stack.
    pub fn add_alias(
        components: &mut Vec<ComponentState>,
        alias: &Alias<'_>,
        types: &TypeList,
        offset: usize,
    ) -> (result: Result<()>)
        requires
            types_ok(types@),
            old(components)@.len() > 0,
            stack_ok(views(old(components)@), types@),
        ensures
            stack_ok(views(final(components)@), types@),
            final(components)@.len() == old(components)@.len(),
            ({
                let stack = views(old(components)@);
                let (c, r) = stack.last().add_alias(around(stack), types@, alias@, offset as int);
                views(final(components)@) == around(stack).push(c) && result == r
            }),
    {
        let ghost stack = views(components@);
        let ghost before = components@;
        match alias {
            Alias::InstanceExport { kind, instance, name } => {
                assert(stack.last() == components@.last()@);
                let current = components.last_mut().unwrap();
                let result = current.alias_export(*kind, *instance, name, types, offset);
                assert(views(components@) =~= around(stack).push(components@.last()@));
                result
            },
            _ => {
                let ty = match outer_entity(components, alias, types, offset) {
                    Ok(ty) => ty,
                    Err(e) => {
                        assert(views(components@) =~= around(stack).push(stack.last()));
                        return Err(e);
                    },
                };
                assert(stack.last() == components@.last()@);
                let current = components.last_mut().unwrap();
                let result = current.bring_checked(ty, offset);
                assert(views(components@) =~= around(stack).push(components@.last()@));
                result
            },
        }
    }

    /// Adds a type that stands further out to the last component of a stack.
    pub fn alias_type(
        components: &mut Vec<ComponentState>,
        count: u32,
        index: u32,
        types: &TypeList,
        offset: usize,
    ) -> (result: Result<()>)
        requires
            old(components)@.len() > 0,
            stack_ok(views(old(components)@), types@),
        ensures
            stack_ok(views(final(components)@), types@),
            final(components)@.len() == old(components)@.len(),
            ({
                let stack = views(old(components)@);
                let (c, r) = stack.last().alias_type(around(stack), count, index, offset as int);
                views(final(components)@) == around(stack).push(c) && result == r
            }),
    {
        let ghost stack = views(components@);
        let ty = match outer_type(components, count, index, types, offset) {
            Ok(ty) => ty,
            Err(e) => {
                assert(views(components@) =~= around(stack).push(stack.last()));
                return Err(e);
            },
        };
        assert(stack.last() == components@.last()@);
        let current = components.last_mut().unwrap();
        let result = current.bring_checked(ty, offset);
        assert(views(components@) =~= around(stack).push(components@.last()@));
        result
    }
}

} // verus!
