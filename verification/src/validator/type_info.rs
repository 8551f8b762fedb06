//! What validation knows of the types of a module or component at its end.

use super::component::{is_any_func, ComponentState, ComponentView};
use super::module::{Module, ModuleView};
use super::types::{is_func_type, types_ok, DefinedType, DefinedTypeView, TypeList};
use crate::reader::types::{FuncType, FuncTypeView, GlobalType, MemoryType, TableType, Type};
use std::sync::Arc;
use vstd::prelude::*;

verus! {

enum TypesKind {
    Module(Arc<Module>),
    Component(ComponentState),
}

/// What is known of the types of a module or component.
pub struct Types {
    types: TypeList,
    kind: TypesKind,
}

/// What [`Types`] hold of.
pub enum TypesKindView {
    /// A module.
    Module(ModuleView),
    /// A component.
    Component(ComponentView),
}

/// What [`Types`] hold.
pub struct TypesView {
    /// The list of all types.
    pub types: Seq<DefinedTypeView>,
    /// The module or component.
    pub kind: TypesKindView,
}

impl View for Types {
    type V = TypesView;

    closed spec fn view(&self) -> TypesView {
        TypesView {
            types: self.types@,
            kind: match self.kind {
                TypesKind::Module(module) => TypesKindView::Module(module@),
                TypesKind::Component(component) => TypesKindView::Component(component@),
            },
        }
    }
}

impl TypesView {
    /// All that the module or component says of types is true.
    pub open spec fn wf(self) -> bool {
        &&& types_ok(self.types)
        &&& match self.kind {
            TypesKindView::Module(module) => module.wf(self.types),
            TypesKindView::Component(component) => component.wf(self.types),
        }
    }

    /// The type of a core function at a place, if it is one.
    pub open spec fn core_func(self, place: usize) -> Option<FuncTypeView> {
        match self.types[place as int] {
            DefinedTypeView::Func(ty) => Some(ty),
            _ => None,
        }
    }

    /// The core function type with an index.
    pub open spec fn func_type(self, index: u32) -> Option<FuncTypeView> {
        let types = match self.kind {
            TypesKindView::Module(module) => module.types,
            TypesKindView::Component(component) => component.types,
        };
        if index < types.len() {
            self.core_func(types[index as int])
        } else {
            None
        }
    }

    /// The type of the core function with an index.
    pub open spec fn function(self, index: u32) -> Option<FuncTypeView> {
        match self.kind {
            TypesKindView::Module(module) => if index < module.functions.len() {
                self.core_func(module.types[module.functions[index as int] as int])
            } else {
                None
            },
            TypesKindView::Component(component) => if index < component.functions.len() {
                self.core_func(component.functions[index as int])
            } else {
                None
            },
        }
    }

    /// The type of the tag with an index.
    pub open spec fn tag(self, index: u32) -> Option<FuncTypeView> {
        let tags = match self.kind {
            TypesKindView::Module(module) => module.tags,
            TypesKindView::Component(component) => component.tags,
        };
        if index < tags.len() {
            self.core_func(tags[index as int])
        } else {
            None
        }
    }

    /// How many types there are.
    pub open spec fn type_count(self) -> nat {
        match self.kind {
            TypesKindView::Module(module) => module.types.len(),
            TypesKindView::Component(component) => component.types.len(),
        }
    }

    /// How many functions there are.
    pub open spec fn function_count(self) -> nat {
        match self.kind {
            TypesKindView::Module(module) => module.functions.len(),
            TypesKindView::Component(component) => component.functions.len(),
        }
    }

    /// How many tags there are.
    pub open spec fn tag_count(self) -> nat {
        match self.kind {
            TypesKindView::Module(module) => module.tags.len(),
            TypesKindView::Component(component) => component.tags.len(),
        }
    }

    /// How many modules there are.
    pub open spec fn module_count(self) -> nat {
        match self.kind {
            TypesKindView::Module(_) => 0,
            TypesKindView::Component(component) => component.modules.len(),
        }
    }

    /// How many components there are.
    pub open spec fn component_count(self) -> nat {
        match self.kind {
            TypesKindView::Module(_) => 0,
            TypesKindView::Component(component) => component.components.len(),
        }
    }

    /// How many instances there are.
    pub open spec fn instance_count(self) -> nat {
        match self.kind {
            TypesKindView::Module(_) => 0,
            TypesKindView::Component(component) => component.instances.len(),
        }
    }

    /// How many values there are.
    pub open spec fn value_count(self) -> nat {
        match self.kind {
            TypesKindView::Module(_) => 0,
            TypesKindView::Component(component) => component.values.len(),
        }
    }

    /// The tables.
    pub open spec fn tables(self) -> Seq<TableType> {
        match self.kind {
            TypesKindView::Module(module) => module.tables,
            TypesKindView::Component(component) => component.tables,
        }
    }

    /// The memories.
    pub open spec fn memories(self) -> Seq<MemoryType> {
        match self.kind {
            TypesKindView::Module(module) => module.memories,
            TypesKindView::Component(component) => component.memories,
        }
    }

    /// The globals.
    pub open spec fn globals(self) -> Seq<GlobalType> {
        match self.kind {
            TypesKindView::Module(module) => module.globals,
            TypesKindView::Component(component) => component.globals,
        }
    }

    /// The types of the element segments.
    pub open spec fn elements(self) -> Seq<Type> {
        match self.kind {
            TypesKindView::Module(module) => module.element_types,
            TypesKindView::Component(_) => Seq::empty(),
        }
    }
}

/// What an optional function type holds.
pub open spec fn func_view(ty: Option<&FuncType>) -> Option<FuncTypeView> {
    match ty {
        Some(ty) => Some(ty@),
        None => None,
    }
}

/// The element of a list with an index, if there is one.
pub open spec fn nth<T>(list: Seq<T>, index: u32) -> Option<T> {
    if index < list.len() {
        Some(list[index as int])
    } else {
        None
    }
}

fn pick<T: Copy>(list: &Vec<T>, index: u32) -> (item: Option<T>)
    ensures
        item == nth(list@, index),
{
    if (index as usize) < list.len() {
        Some(list[index as usize])
    } else {
        None
    }
}

impl Types {
    pub(crate) fn from_module(types: TypeList, module: Arc<Module>) -> (info: Types)
        ensures
            info@ == (TypesView { types: types@, kind: TypesKindView::Module(module@) }),
    {
        Types { types, kind: TypesKind::Module(module) }
    }

    pub(crate) fn from_component(types: TypeList, component: ComponentState) -> (info: Types)
        ensures
            info@ == (TypesView { types: types@, kind: TypesKindView::Component(component@) }),
    {
        Types { types, kind: TypesKind::Component(component) }
    }

    fn core_func(&self, place: usize) -> (ty: Option<&FuncType>)
        requires
            place < self@.types.len(),
        ensures
            func_view(ty) == self@.core_func(place),
    {
        match self.types.get(place) {
            DefinedType::Func(ty) => Some(ty),
            _ => None,
        }
    }

    /// How many types there are.
    pub fn type_count(&self) -> (count: usize)
        ensures
            count == self@.type_count(),
    {
        match &self.kind {
            TypesKind::Module(module) => module.types.len(),
            TypesKind::Component(component) => component.types.len(),
        }
    }

    /// The core function type with an index.
    pub fn func_type_at(&self, index: u32) -> (ty: Option<&FuncType>)
        requires
            self@.wf(),
        ensures
            func_view(ty) == self@.func_type(index),
    {
        let place = match &self.kind {
            TypesKind::Module(module) => {
                if index as usize >= module.types.len() {
                    return None;
                }
                assert(is_func_type(self@.types, module@.types[index as int]));
                module.types[index as usize]
            },
            TypesKind::Component(component) => {
                if index as usize >= component.types.len() {
                    return None;
                }
                assert(component@.types[index as int] < self@.types.len());
                component.types[index as usize]
            },
        };
        self.core_func(place)
    }

    /// How many tables there are.
    pub fn table_count(&self) -> (count: usize)
        ensures
            count == self@.tables().len(),
    {
        match &self.kind {
            TypesKind::Module(module) => module.tables.len(),
            TypesKind::Component(component) => component.tables.len(),
        }
    }

    /// The type of the table with an index.
    pub fn table_at(&self, index: u32) -> (ty: Option<TableType>)
        ensures
            ty == nth(self@.tables(), index),
    {
        match &self.kind {
            TypesKind::Module(module) => pick(&module.tables, index),
            TypesKind::Component(component) => pick(&component.tables, index),
        }
    }

    /// How many memories there are.
    pub fn memory_count(&self) -> (count: usize)
        ensures
            count == self@.memories().len(),
    {
        match &self.kind {
            TypesKind::Module(module) => module.memories.len(),
            TypesKind::Component(component) => component.memories.len(),
        }
    }

    /// The type of the memory with an index.
    pub fn memory_at(&self, index: u32) -> (ty: Option<MemoryType>)
        ensures
            ty == nth(self@.memories(), index),
    {
        match &self.kind {
            TypesKind::Module(module) => pick(&module.memories, index),
            TypesKind::Component(component) => pick(&component.memories, index),
        }
    }

    /// How many globals there are.
    pub fn global_count(&self) -> (count: usize)
        ensures
            count == self@.globals().len(),
    {
        match &self.kind {
            TypesKind::Module(module) => module.globals.len(),
            TypesKind::Component(component) => component.globals.len(),
        }
    }

    /// The type of the global with an index.
    pub fn global_at(&self, index: u32) -> (ty: Option<GlobalType>)
        ensures
            ty == nth(self@.globals(), index),
    {
        match &self.kind {
            TypesKind::Module(module) => pick(&module.globals, index),
            TypesKind::Component(component) => pick(&component.globals, index),
        }
    }

    /// How many functions there are.
    pub fn function_count(&self) -> (count: usize)
        ensures
            count == self@.function_count(),
    {
        match &self.kind {
            TypesKind::Module(module) => module.functions.len(),
            TypesKind::Component(component) => component.functions.len(),
        }
    }

    /// The type of the core function with an index.
    pub fn function_at(&self, index: u32) -> (ty: Option<&FuncType>)
        requires
            self@.wf(),
        ensures
            func_view(ty) == self@.function(index),
    {
        let place = match &self.kind {
            TypesKind::Module(module) => {
                if index as usize >= module.functions.len() {
                    return None;
                }
                let type_index = module.functions[index as usize];
                assert(module@.functions[index as int] < module@.types.len());
                assert(is_func_type(self@.types, module@.types[type_index as int]));
                module.types[type_index as usize]
            },
            TypesKind::Component(component) => {
                if index as usize >= component.functions.len() {
                    return None;
                }
                assert(is_any_func(self@.types, component@.functions[index as int]));
                component.functions[index as usize]
            },
        };
        self.core_func(place)
    }

    /// How many tags there are.
    pub fn tag_count(&self) -> (count: usize)
        ensures
            count == self@.tag_count(),
    {
        match &self.kind {
            TypesKind::Module(module) => module.tags.len(),
            TypesKind::Component(component) => component.tags.len(),
        }
    }

    /// The type of the tag with an index.
    pub fn tag_at(&self, index: u32) -> (ty: Option<&FuncType>)
        requires
            self@.wf(),
        ensures
            func_view(ty) == self@.tag(index),
    {
        let place = match &self.kind {
            TypesKind::Module(module) => {
                if index as usize >= module.tags.len() {
                    return None;
                }
                assert(is_func_type(self@.types, module@.tags[index as int]));
                module.tags[index as usize]
            },
            TypesKind::Component(component) => {
                if index as usize >= component.tags.len() {
                    return None;
                }
                assert(is_func_type(self@.types, component@.tags[index as int]));
                component.tags[index as usize]
            },
        };
        self.core_func(place)
    }

    /// How many element segments there are.
    pub fn element_count(&self) -> (count: usize)
        ensures
            count == self@.elements().len(),
    {
        match &self.kind {
            TypesKind::Module(module) => module.element_types.len(),
            TypesKind::Component(_) => 0,
        }
    }

    /// The type of the elements of the segment with an index.
    pub fn element_at(&self, index: u32) -> (ty: Option<Type>)
        ensures
            ty == nth(self@.elements(), index),
    {
        match &self.kind {
            TypesKind::Module(module) => pick(&module.element_types, index),
            TypesKind::Component(_) => None,
        }
    }

    /// How many modules there are.
    pub fn module_count(&self) -> (count: usize)
        ensures
            count == self@.module_count(),
    {
        match &self.kind {
            TypesKind::Module(_) => 0,
            TypesKind::Component(component) => component.modules.len(),
        }
    }

    /// How many components there are.
    pub fn component_count(&self) -> (count: usize)
        ensures
            count == self@.component_count(),
    {
        match &self.kind {
            TypesKind::Module(_) => 0,
            TypesKind::Component(component) => component.components.len(),
        }
    }

    /// How many instances there are.
    pub fn instance_count(&self) -> (count: usize)
        ensures
            count == self@.instance_count(),
    {
        match &self.kind {
            TypesKind::Module(_) => 0,
            TypesKind::Component(component) => component.instances.len(),
        }
    }

    /// How many values there are.
    pub fn value_count(&self) -> (count: usize)
        ensures
            count == self@.value_count(),
    {
        match &self.kind {
            TypesKind::Module(_) => 0,
            TypesKind::Component(component) => component.values.len(),
        }
    }
}

} // verus!
