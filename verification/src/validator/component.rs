//! The state of a component that is being validated.

use super::names::{has_name, NameMap};
use super::types::{
    entities_ok, is_component_func_type, is_component_type, is_func_type, is_instance_type,
    is_module_type, types_ok, ComponentEntityType, DefinedType, DefinedTypeView, TypeList, TypeUse,
};
use super::{check_max, max_check};
use crate::error::{error_at, number_error_at, BinaryReaderError, Result};
use crate::limits::{
    MAX_WASM_COMPONENTS, MAX_WASM_FUNCTIONS, MAX_WASM_INSTANCES, MAX_WASM_MODULES, MAX_WASM_TYPES,
    MAX_WASM_VALUES,
};
use crate::reader::component::exports::{ComponentExport, ComponentExportView};
use crate::reader::component::items::{ComponentArgKind, Instance};
use crate::reader::component::types::{ComponentImport, ComponentImportView};
use crate::reader::types::{GlobalType, MemoryType, TableType, Type};
use vstd::prelude::*;

verus! {

/// What is known of a component.
pub struct ComponentState {
    /// The places of the types in the list of all types.
    pub types: Vec<usize>,
    /// The places of the types of the modules.
    pub modules: Vec<usize>,
    /// The places of the types of the components.
    pub components: Vec<usize>,
    /// The places of the types of the instances.
    pub instances: Vec<usize>,
    /// The places of the types of the functions.
    pub functions: Vec<usize>,
    /// The types of the values, and whether each has been used.
    pub values: Vec<(TypeUse, bool)>,
    /// The tables of modules.
    pub tables: Vec<TableType>,
    /// The memories of modules.
    pub memories: Vec<MemoryType>,
    /// The globals of modules.
    pub globals: Vec<GlobalType>,
    /// The places of the types of the tags of modules.
    pub tags: Vec<usize>,
    /// Whether there is a start function.
    pub has_start: bool,
    /// The imports.
    pub imports: NameMap<ComponentEntityType>,
    /// The exports.
    pub exports: NameMap<ComponentEntityType>,
}

/// What a [`ComponentState`] holds.
#[verifier::ext_equal]
pub struct ComponentView {
    /// The places of the types in the list of all types.
    pub types: Seq<usize>,
    /// The places of the types of the modules.
    pub modules: Seq<usize>,
    /// The places of the types of the components.
    pub components: Seq<usize>,
    /// The places of the types of the instances.
    pub instances: Seq<usize>,
    /// The places of the types of the functions.
    pub functions: Seq<usize>,
    /// The types of the values, and whether each has been used.
    pub values: Seq<(TypeUse, bool)>,
    /// The tables of modules.
    pub tables: Seq<TableType>,
    /// The memories of modules.
    pub memories: Seq<MemoryType>,
    /// The globals of modules.
    pub globals: Seq<GlobalType>,
    /// The places of the types of the tags of modules.
    pub tags: Seq<usize>,
    /// Whether there is a start function.
    pub has_start: bool,
    /// The imports.
    pub imports: Seq<(Seq<char>, ComponentEntityType)>,
    /// The exports.
    pub exports: Seq<(Seq<char>, ComponentEntityType)>,
}

impl View for ComponentState {
    type V = ComponentView;

    open spec fn view(&self) -> ComponentView {
        ComponentView {
            types: self.types@,
            modules: self.modules@,
            components: self.components@,
            instances: self.instances@,
            functions: self.functions@,
            values: self.values@,
            tables: self.tables@,
            memories: self.memories@,
            globals: self.globals@,
            tags: self.tags@,
            has_start: self.has_start,
            imports: self.imports@,
            exports: self.exports@,
        }
    }
}

/// `place` is that of the type of an instance of a module.
pub open spec fn is_module_instance_type(types: Seq<DefinedTypeView>, place: usize) -> bool {
    place < types.len() && types[place as int] is ModuleInstance
}

/// `place` is that of the type of an instance of a module or of a component.
pub open spec fn is_any_instance(types: Seq<DefinedTypeView>, place: usize) -> bool {
    is_instance_type(types, place) || is_module_instance_type(types, place)
}

/// `place` is that of the type of a core function or of a component function.
pub open spec fn is_any_func(types: Seq<DefinedTypeView>, place: usize) -> bool {
    is_func_type(types, place) || is_component_func_type(types, place)
}

/// The error for an index that is too large.
pub open spec fn out_of_bounds(
    before: &'static str,
    index: u32,
    after: &'static str,
    offset: int,
) -> BinaryReaderError {
    number_error_at(before, index as int, after, offset)
}

/// What stands for a type where a component imports or exports something of it.
pub open spec fn entity_of(types: Seq<DefinedTypeView>, place: usize) -> ComponentEntityType {
    match types[place as int] {
        DefinedTypeView::Module(_) => ComponentEntityType::Module(place),
        DefinedTypeView::Component(_) => ComponentEntityType::Component(place),
        DefinedTypeView::Instance(_) => ComponentEntityType::Instance(place),
        DefinedTypeView::ComponentFunc(_) => ComponentEntityType::Func(place),
        DefinedTypeView::Value(ty) => ComponentEntityType::Value(ty),
        _ => ComponentEntityType::Type(place),
    }
}

impl ComponentView {
    /// A component in which nothing has been defined.
    pub open spec fn empty() -> ComponentView {
        ComponentView {
            types: Seq::empty(),
            modules: Seq::empty(),
            components: Seq::empty(),
            instances: Seq::empty(),
            functions: Seq::empty(),
            values: Seq::empty(),
            tables: Seq::empty(),
            memories: Seq::empty(),
            globals: Seq::empty(),
            tags: Seq::empty(),
            has_start: false,
            imports: Seq::empty(),
            exports: Seq::empty(),
        }
    }

    /// All that the component says of types is true of `types`.
    pub open spec fn wf(self, types: Seq<DefinedTypeView>) -> bool {
        &&& forall|i: int| 0 <= i < self.types.len() ==> #[trigger] self.types[i] < types.len()
        &&& forall|i: int|
            0 <= i < self.modules.len() ==> is_module_type(types, #[trigger] self.modules[i])
        &&& forall|i: int|
            0 <= i < self.components.len() ==> is_component_type(
                types,
                #[trigger] self.components[i],
            )
        &&& forall|i: int|
            0 <= i < self.instances.len() ==> is_any_instance(types, #[trigger] self.instances[i])
        &&& forall|i: int|
            0 <= i < self.functions.len() ==> is_any_func(types, #[trigger] self.functions[i])
        &&& forall|i: int| 0 <= i < self.values.len() ==> (#[trigger] self.values[i]).0.ok(types)
        &&& forall|i: int| 0 <= i < self.tags.len() ==> is_func_type(types, #[trigger] self.tags[i])
        &&& entities_ok(self.imports, types)
        &&& entities_ok(self.exports, types)
    }

    /// The place of the type with an index.
    pub open spec fn type_at(self, index: u32, offset: int) -> Result<usize> {
        if index < self.types.len() {
            Ok(self.types[index as int])
        } else {
            Err(out_of_bounds("unknown type ", index, ": type index out of bounds", offset))
        }
    }

    /// The place of the type of the module with an index.
    pub open spec fn module_at(self, index: u32, offset: int) -> Result<usize> {
        if index < self.modules.len() {
            Ok(self.modules[index as int])
        } else {
            Err(out_of_bounds("unknown module ", index, ": module index out of bounds", offset))
        }
    }

    /// The place of the type of the component with an index.
    pub open spec fn component_at(self, index: u32, offset: int) -> Result<usize> {
        if index < self.components.len() {
            Ok(self.components[index as int])
        } else {
            Err(
                out_of_bounds("unknown component ", index, ": component index out of bounds", offset),
            )
        }
    }

    /// The place of the type of the instance with an index.
    pub open spec fn instance_at(self, index: u32, offset: int) -> Result<usize> {
        if index < self.instances.len() {
            Ok(self.instances[index as int])
        } else {
            Err(out_of_bounds("unknown instance ", index, ": instance index out of bounds", offset))
        }
    }

    /// The place of the type of the instance of a component with an index.
    pub open spec fn component_instance_at(
        self,
        types: Seq<DefinedTypeView>,
        index: u32,
        offset: int,
    ) -> Result<usize> {
        match self.instance_at(index, offset) {
            Err(e) => Err(e),
            Ok(place) => if types[place as int] is Instance {
                Ok(place)
            } else {
                Err(out_of_bounds("instance ", index, " is not a component instance", offset))
            },
        }
    }

    /// The place of the type of the instance of a module with an index.
    pub open spec fn module_instance_at(
        self,
        types: Seq<DefinedTypeView>,
        index: u32,
        offset: int,
    ) -> Result<usize> {
        match self.instance_at(index, offset) {
            Err(e) => Err(e),
            Ok(place) => if types[place as int] is ModuleInstance {
                Ok(place)
            } else {
                Err(out_of_bounds("instance ", index, " is not a module instance", offset))
            },
        }
    }

    /// The place of the type of the function with an index.
    pub open spec fn function_at(self, index: u32, offset: int) -> Result<usize> {
        if index < self.functions.len() {
            Ok(self.functions[index as int])
        } else {
            Err(out_of_bounds("unknown function ", index, ": function index out of bounds", offset))
        }
    }

    /// The place of the type of the component function with an index.
    pub open spec fn component_function_at(
        self,
        types: Seq<DefinedTypeView>,
        index: u32,
        offset: int,
    ) -> Result<usize> {
        match self.function_at(index, offset) {
            Err(e) => Err(e),
            Ok(place) => if types[place as int] is ComponentFunc {
                Ok(place)
            } else {
                Err(out_of_bounds("function ", index, " is not a component function", offset))
            },
        }
    }

    /// The place of the type of the core function with an index.
    pub open spec fn core_function_at(
        self,
        types: Seq<DefinedTypeView>,
        index: u32,
        offset: int,
    ) -> Result<usize> {
        match self.function_at(index, offset) {
            Err(e) => Err(e),
            Ok(place) => if types[place as int] is Func {
                Ok(place)
            } else {
                Err(out_of_bounds("function ", index, " is not a core function", offset))
            },
        }
    }

    /// The type of the value with an index, which is used up.
    pub open spec fn value_at(self, index: u32, offset: int) -> (ComponentView, Result<TypeUse>) {
        if index >= self.values.len() {
            (
                self,
                Err(out_of_bounds("unknown value ", index, ": value index out of bounds", offset)),
            )
        } else if self.values[index as int].1 {
            (
                self,
                Err(out_of_bounds("value ", index, " cannot be used more than once", offset)),
            )
        } else {
            let ty = self.values[index as int].0;
            (
                ComponentView { values: self.values.update(index as int, (ty, true)), ..self },
                Ok(ty),
            )
        }
    }

    /// The component with something more of a kind.
    pub open spec fn bring(self, ty: ComponentEntityType) -> ComponentView {
        match ty {
            ComponentEntityType::Module(place) => ComponentView {
                modules: self.modules.push(place),
                ..self
            },
            ComponentEntityType::Component(place) => ComponentView {
                components: self.components.push(place),
                ..self
            },
            ComponentEntityType::Instance(place) => ComponentView {
                instances: self.instances.push(place),
                ..self
            },
            ComponentEntityType::Func(place) => ComponentView {
                functions: self.functions.push(place),
                ..self
            },
            ComponentEntityType::Value(ty) => ComponentView {
                values: self.values.push((ty, false)),
                ..self
            },
            ComponentEntityType::Type(place) => ComponentView {
                types: self.types.push(place),
                ..self
            },
        }
    }

    /// The error for more of a kind than there can be, if `added` are added.
    pub open spec fn limit(self, ty: ComponentEntityType, added: int, offset: int) -> Result<()> {
        match ty {
            ComponentEntityType::Module(_) => max_check(
                self.modules.len() as int,
                added,
                MAX_WASM_MODULES,
                "modules",
                offset,
            ),
            ComponentEntityType::Component(_) => max_check(
                self.components.len() as int,
                added,
                MAX_WASM_COMPONENTS,
                "components",
                offset,
            ),
            ComponentEntityType::Instance(_) => max_check(
                self.instances.len() as int,
                added,
                MAX_WASM_INSTANCES,
                "instances",
                offset,
            ),
            ComponentEntityType::Func(_) => max_check(
                self.functions.len() as int,
                added,
                MAX_WASM_FUNCTIONS,
                "functions",
                offset,
            ),
            ComponentEntityType::Value(_) => max_check(
                self.values.len() as int,
                added,
                MAX_WASM_VALUES,
                "values",
                offset,
            ),
            ComponentEntityType::Type(_) => max_check(
                self.types.len() as int,
                added,
                MAX_WASM_TYPES,
                "types",
                offset,
            ),
        }
    }

    /// Adds an import.
    pub open spec fn add_import(
        self,
        types: Seq<DefinedTypeView>,
        import: ComponentImportView,
        offset: int,
    ) -> (ComponentView, Result<()>) {
        match self.type_at(import.ty, offset) {
            Err(e) => (self, Err(e)),
            Ok(place) => {
                let ty = entity_of(types, place);
                let c = self.bring(ty);
                match c.limit(ty, 0, offset) {
                    Err(e) => (c, Err(e)),
                    Ok(_) => if has_name(c.imports, import.name) {
                        (c, Err(error_at("duplicate import name already defined", offset)))
                    } else {
                        (
                            ComponentView { imports: c.imports.push((import.name, ty)), ..c },
                            Ok(()),
                        )
                    },
                }
            },
        }
    }

    /// The type of what is exported, or given to what is instantiated.
    pub open spec fn kind_type(
        self,
        types: Seq<DefinedTypeView>,
        kind: ComponentArgKind,
        offset: int,
    ) -> (ComponentView, Result<ComponentEntityType>) {
        match kind {
            ComponentArgKind::Module(index) => match self.module_at(index, offset) {
                Err(e) => (self, Err(e)),
                Ok(place) => (self, Ok(ComponentEntityType::Module(place))),
            },
            ComponentArgKind::Component(index) => match self.component_at(index, offset) {
                Err(e) => (self, Err(e)),
                Ok(place) => (self, Ok(ComponentEntityType::Component(place))),
            },
            ComponentArgKind::Instance(index) => match self.component_instance_at(
                types,
                index,
                offset,
            ) {
                Err(e) => (self, Err(e)),
                Ok(place) => (self, Ok(ComponentEntityType::Instance(place))),
            },
            ComponentArgKind::Function(index) => match self.component_function_at(
                types,
                index,
                offset,
            ) {
                Err(e) => (self, Err(e)),
                Ok(place) => (self, Ok(ComponentEntityType::Func(place))),
            },
            ComponentArgKind::Value(index) => match self.value_at(index, offset) {
                (c, Err(e)) => (c, Err(e)),
                (c, Ok(ty)) => (c, Ok(ComponentEntityType::Value(ty))),
            },
            ComponentArgKind::Type(index) => match self.type_at(index, offset) {
                Err(e) => (self, Err(e)),
                Ok(place) => (self, Ok(ComponentEntityType::Type(place))),
            },
        }
    }

    /// The type of what is exported.
    pub open spec fn export_to_entity_type(
        self,
        types: Seq<DefinedTypeView>,
        export: ComponentExportView,
        offset: int,
    ) -> (ComponentView, Result<ComponentEntityType>) {
        self.kind_type(types, export.kind, offset)
    }

    /// Adds an export.
    pub open spec fn add_export(self, name: Seq<char>, ty: ComponentEntityType, offset: int) -> (
        ComponentView,
        Result<()>,
    ) {
        if has_name(self.exports, name) {
            (self, Err(error_at("duplicate export name already defined", offset)))
        } else {
            (ComponentView { exports: self.exports.push((name, ty)), ..self }, Ok(()))
        }
    }

    /// Adds an export as it is written.
    pub open spec fn export(
        self,
        types: Seq<DefinedTypeView>,
        export: ComponentExportView,
        offset: int,
    ) -> (ComponentView, Result<()>) {
        match self.export_to_entity_type(types, export, offset) {
            (c, Err(e)) => (c, Err(e)),
            (c, Ok(ty)) => c.add_export(export.name, ty, offset),
        }
    }
}

fn unknown(before: &'static str, index: u32, after: &'static str, offset: usize) -> (error:
    BinaryReaderError)
    ensures
        error == out_of_bounds(before, index, after, offset as int),
{
    BinaryReaderError::with_number(before, index as u64, after, offset)
}

/// What stands for a type where a component imports or exports something of it.
pub fn entity_type(types: &TypeList, place: usize) -> (ty: ComponentEntityType)
    requires
        types_ok(types@),
        place < types@.len(),
    ensures
        ty == entity_of(types@, place),
        ty.ok(types@),
{
    assert(types@[place as int].ok(types@.take(place as int)));
    match types.get(place) {
        DefinedType::Module(_) => ComponentEntityType::Module(place),
        DefinedType::Component(_) => ComponentEntityType::Component(place),
        DefinedType::Instance(_) => ComponentEntityType::Instance(place),
        DefinedType::ComponentFunc(_) => ComponentEntityType::Func(place),
        DefinedType::Value(ty) => ComponentEntityType::Value(*ty),
        _ => ComponentEntityType::Type(place),
    }
}

impl ComponentState {
    /// A component in which nothing has been defined.
    pub fn new() -> (component: ComponentState)
        ensures
            component@ == ComponentView::empty(),
    {
        ComponentState {
            types: Vec::new(),
            modules: Vec::new(),
            components: Vec::new(),
            instances: Vec::new(),
            functions: Vec::new(),
            values: Vec::new(),
            tables: Vec::new(),
            memories: Vec::new(),
            globals: Vec::new(),
            tags: Vec::new(),
            has_start: false,
            imports: NameMap::new(),
            exports: NameMap::new(),
        }
    }

    /// The place of the type with an index.
    pub fn type_at(&self, index: u32, offset: usize) -> (result: Result<usize>)
        ensures
            result == self@.type_at(index, offset as int),
    {
        if (index as usize) < self.types.len() {
            Ok(self.types[index as usize])
        } else {
            Err(unknown("unknown type ", index, ": type index out of bounds", offset))
        }
    }

    /// The place of the type of the module with an index.
    pub fn module_at(&self, index: u32, offset: usize) -> (result: Result<usize>)
        ensures
            result == self@.module_at(index, offset as int),
    {
        if (index as usize) < self.modules.len() {
            Ok(self.modules[index as usize])
        } else {
            Err(unknown("unknown module ", index, ": module index out of bounds", offset))
        }
    }

    /// The place of the type of the component with an index.
    pub fn component_at(&self, index: u32, offset: usize) -> (result: Result<usize>)
        ensures
            result == self@.component_at(index, offset as int),
    {
        if (index as usize) < self.components.len() {
            Ok(self.components[index as usize])
        } else {
            Err(unknown("unknown component ", index, ": component index out of bounds", offset))
        }
    }

    /// The place of the type of the instance with an index.
    pub fn instance_at(&self, index: u32, offset: usize) -> (result: Result<usize>)
        ensures
            result == self@.instance_at(index, offset as int),
    {
        if (index as usize) < self.instances.len() {
            Ok(self.instances[index as usize])
        } else {
            Err(unknown("unknown instance ", index, ": instance index out of bounds", offset))
        }
    }

    /// The place of the type of the instance of a component with an index.
    pub fn component_instance_at(&self, index: u32, types: &TypeList, offset: usize) -> (result:
        Result<usize>)
        requires
            self@.wf(types@),
        ensures
            result == self@.component_instance_at(types@, index, offset as int),
    {
        let place = self.instance_at(index, offset)?;
        assert(is_any_instance(types@, place));
        if matches!(types.get(place), DefinedType::Instance(_)) {
            Ok(place)
        } else {
            Err(unknown("instance ", index, " is not a component instance", offset))
        }
    }

    /// The place of the type of the instance of a module with an index.
    pub fn module_instance_at(&self, index: u32, types: &TypeList, offset: usize) -> (result:
        Result<usize>)
        requires
            self@.wf(types@),
        ensures
            result == self@.module_instance_at(types@, index, offset as int),
            result matches Ok(place) ==> is_module_instance_type(types@, place),
    {
        let place = self.instance_at(index, offset)?;
        assert(is_any_instance(types@, place));
        if matches!(types.get(place), DefinedType::ModuleInstance(_)) {
            Ok(place)
        } else {
            Err(unknown("instance ", index, " is not a module instance", offset))
        }
    }

    /// The place of the type of the function with an index.
    pub fn function_at(&self, index: u32, offset: usize) -> (result: Result<usize>)
        ensures
            result == self@.function_at(index, offset as int),
    {
        if (index as usize) < self.functions.len() {
            Ok(self.functions[index as usize])
        } else {
            Err(unknown("unknown function ", index, ": function index out of bounds", offset))
        }
    }

    /// The place of the type of the component function with an index.
    pub fn component_function_at(&self, index: u32, types: &TypeList, offset: usize) -> (result:
        Result<usize>)
        requires
            self@.wf(types@),
        ensures
            result == self@.component_function_at(types@, index, offset as int),
    {
        let place = self.function_at(index, offset)?;
        assert(is_any_func(types@, place));
        if matches!(types.get(place), DefinedType::ComponentFunc(_)) {
            Ok(place)
        } else {
            Err(unknown("function ", index, " is not a component function", offset))
        }
    }

    /// The place of the type of the core function with an index.
    pub fn core_function_at(&self, index: u32, types: &TypeList, offset: usize) -> (result: Result<
        usize,
    >)
        requires
            self@.wf(types@),
        ensures
            result == self@.core_function_at(types@, index, offset as int),
            result matches Ok(place) ==> is_func_type(types@, place),
    {
        let place = self.function_at(index, offset)?;
        assert(is_any_func(types@, place));
        if matches!(types.get(place), DefinedType::Func(_)) {
            Ok(place)
        } else {
            Err(unknown("function ", index, " is not a core function", offset))
        }
    }

    /// The type of the value with an index, which is used up.
    pub fn value_at(&mut self, index: u32, offset: usize) -> (result: Result<TypeUse>)
        ensures
            (final(self)@, result) == old(self)@.value_at(index, offset as int),
    {
        if index as usize >= self.values.len() {
            return Err(unknown("unknown value ", index, ": value index out of bounds", offset));
        }
        let (ty, used) = self.values[index as usize];
        if used {
            return Err(unknown("value ", index, " cannot be used more than once", offset));
        }
        self.values.set(index as usize, (ty, true));
        Ok(ty)
    }

    /// Puts something behind the others of its kind.
    pub fn bring(&mut self, ty: ComponentEntityType)
        ensures
            final(self)@ == old(self)@.bring(ty),
    {
        match ty {
            ComponentEntityType::Module(place) => self.modules.push(place),
            ComponentEntityType::Component(place) => self.components.push(place),
            ComponentEntityType::Instance(place) => self.instances.push(place),
            ComponentEntityType::Func(place) => self.functions.push(place),
            ComponentEntityType::Value(ty) => self.values.push((ty, false)),
            ComponentEntityType::Type(place) => self.types.push(place),
        }
    }

    /// Checks that there is not more of a kind than there can be.
    pub fn check_limit(&self, ty: ComponentEntityType, added: u32, offset: usize) -> (result: Result<
        (),
    >)
        ensures
            result == self@.limit(ty, added as int, offset as int),
    {
        match ty {
            ComponentEntityType::Module(_) => check_max(
                self.modules.len(),
                added,
                MAX_WASM_MODULES,
                "modules",
                offset,
            ),
            ComponentEntityType::Component(_) => check_max(
                self.components.len(),
                added,
                MAX_WASM_COMPONENTS,
                "components",
                offset,
            ),
            ComponentEntityType::Instance(_) => check_max(
                self.instances.len(),
                added,
                MAX_WASM_INSTANCES,
                "instances",
                offset,
            ),
            ComponentEntityType::Func(_) => check_max(
                self.functions.len(),
                added,
                MAX_WASM_FUNCTIONS,
                "functions",
                offset,
            ),
            ComponentEntityType::Value(_) => check_max(
                self.values.len(),
                added,
                MAX_WASM_VALUES,
                "values",
                offset,
            ),
            ComponentEntityType::Type(_) => check_max(
                self.types.len(),
                added,
                MAX_WASM_TYPES,
                "types",
                offset,
            ),
        }
    }

    /// Adds an import.
    pub fn add_import(&mut self, import: &ComponentImport<'_>, types: &TypeList, offset: usize) -> (
    result: Result<()>)
        requires
            types_ok(types@),
            old(self)@.wf(types@),
        ensures
            final(self)@.wf(types@),
            (final(self)@, result) == old(self)@.add_import(types@, import@, offset as int),
    {
        let place = self.type_at(import.ty, offset)?;
        assert(place < types@.len());
        let ty = entity_type(types, place);
        self.bring(ty);
        let ghost brought = self@;
        assert(brought.wf(types@));
        self.check_limit(ty, 0, offset)?;
        if self.imports.insert(import.name, ty) {
            assert(self@ == (ComponentView {
                imports: brought.imports.push((import.name@, ty)),
                ..brought
            }));
            Ok(())
        } else {
            assert(self@ == brought);
            Err(BinaryReaderError::new("duplicate import name already defined", offset))
        }
    }

    /// The type of what is exported, or given to what is instantiated.
    pub fn kind_type(&mut self, kind: ComponentArgKind, types: &TypeList, offset: usize) -> (result:
        Result<ComponentEntityType>)
        requires
            types_ok(types@),
            old(self)@.wf(types@),
        ensures
            final(self)@.wf(types@),
            (final(self)@, result) == old(self)@.kind_type(types@, kind, offset as int),
            result matches Ok(ty) ==> ty.ok(types@),
    {
        match kind {
            ComponentArgKind::Module(index) => Ok(
                ComponentEntityType::Module(self.module_at(index, offset)?),
            ),
            ComponentArgKind::Component(index) => Ok(
                ComponentEntityType::Component(self.component_at(index, offset)?),
            ),
            ComponentArgKind::Instance(index) => Ok(
                ComponentEntityType::Instance(self.component_instance_at(index, types, offset)?),
            ),
            ComponentArgKind::Function(index) => Ok(
                ComponentEntityType::Func(self.component_function_at(index, types, offset)?),
            ),
            ComponentArgKind::Value(index) => {
                let ty = self.value_at(index, offset)?;
                assert(old(self)@.values[index as int].0.ok(types@));
                Ok(ComponentEntityType::Value(ty))
            },
            ComponentArgKind::Type(index) => Ok(
                ComponentEntityType::Type(self.type_at(index, offset)?),
            ),
        }
    }

    /// The type of what is exported.
    pub fn export_to_entity_type(
        &mut self,
        export: &ComponentExport<'_>,
        types: &TypeList,
        offset: usize,
    ) -> (result: Result<ComponentEntityType>)
        requires
            types_ok(types@),
            old(self)@.wf(types@),
        ensures
            final(self)@.wf(types@),
            (final(self)@, result) == old(self)@.export_to_entity_type(
                types@,
                export@,
                offset as int,
            ),
            result matches Ok(ty) ==> ty.ok(types@),
    {
        self.kind_type(export.kind, types, offset)
    }

    /// Adds an export.
    pub fn add_export(&mut self, name: &str, ty: ComponentEntityType, offset: usize) -> (result:
        Result<()>)
        ensures
            (final(self)@, result) == old(self)@.add_export(name@, ty, offset as int),
    {
        if self.exports.insert(name, ty) {
            Ok(())
        } else {
            Err(BinaryReaderError::new("duplicate export name already defined", offset))
        }
    }
}

} // verus!
