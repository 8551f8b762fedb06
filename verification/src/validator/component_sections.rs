//! What each section of a component does to the state of its validation.

use super::component::{ComponentState, ComponentView};
use super::component_instances::{around, lemma_component_longer, stack_ok};
use super::features::WasmFeatures;
use super::types::{starts_with, types_ok, DefinedTypeView, TypeList};
use super::{check_max, max_check};
use crate::error::Result;
use crate::limits::{MAX_WASM_EXPORTS, MAX_WASM_FUNCTIONS, MAX_WASM_INSTANCES, MAX_WASM_TYPES};
use crate::reader::component::exports::{
    ComponentExport, ComponentExportSectionReader, ComponentExportView,
};
use crate::reader::component::items::{
    Alias, AliasView, ComponentFunction, ComponentFunctionView, Instance, InstanceView,
};
use crate::reader::component::types::{
    ComponentImport, ComponentImportView, ComponentTypeDef, ComponentTypeDefView,
};
use crate::reader::sections::{SectionLimited, SectionWithLimitedItems};
use crate::reader::types::views;
use vstd::prelude::*;

verus! {

/// A reader of a section of a component, with what the section does to the state.
pub trait ComponentSection: SectionWithLimitedItems + Copy {
    /// The name of the section in errors.
    spec fn name_of() -> &'static str;

    /// What the number of items has to be.
    spec fn counted(current: ComponentView, count: u32, offset: int) -> Result<()>;

    /// What an item does; `outer` are the components around the current one.
    spec fn added(
        outer: Seq<ComponentView>,
        current: ComponentView,
        types: Seq<DefinedTypeView>,
        features: WasmFeatures,
        item: <Self::Item as View>::V,
        offset: int,
    ) -> (ComponentView, Seq<DefinedTypeView>, Result<()>);

    /// An item leaves the types that there are.
    proof fn item_keeps(
        outer: Seq<ComponentView>,
        current: ComponentView,
        types: Seq<DefinedTypeView>,
        features: WasmFeatures,
        item: <Self::Item as View>::V,
        offset: int,
    )
        ensures
            starts_with(Self::added(outer, current, types, features, item, offset).1, types),
    ;

    /// The name of the section in errors.
    fn name() -> (name: &'static str)
        ensures
            name == Self::name_of(),
    ;

    /// Validates the number of items.
    fn count(
        components: &mut Vec<ComponentState>,
        types: &mut TypeList,
        count: u32,
        offset: usize,
    ) -> (result: Result<()>)
        requires
            old(components)@.len() > 0,
        ensures
            final(types)@ == old(types)@,
            views(final(components)@) == views(old(components)@),
            result == Self::counted(views(old(components)@).last(), count, offset as int),
    ;

    /// Validates an item.
    fn add(
        components: &mut Vec<ComponentState>,
        types: &mut TypeList,
        features: &WasmFeatures,
        item: Self::Item,
        offset: usize,
    ) -> (result: Result<()>)
        requires
            types_ok(old(types)@),
            old(components)@.len() > 0,
            stack_ok(views(old(components)@), old(types)@),
        ensures
            types_ok(final(types)@),
            starts_with(final(types)@, old(types)@),
            stack_ok(views(final(components)@), final(types)@),
            final(components)@.len() == old(components)@.len(),
            ({
                let stack = views(old(components)@);
                let (c, t, r) = Self::added(
                    around(stack),
                    stack.last(),
                    old(types)@,
                    *features,
                    item@,
                    offset as int,
                );
                &&& views(final(components)@) == around(stack).push(c)
                &&& final(types)@ == t
                &&& result == r
            }),
    ;
}

/// What the components of a stack say of types stays true when there are more
/// types and only the last one changes.
pub proof fn lemma_stack(
    stack: Seq<ComponentView>,
    start: Seq<DefinedTypeView>,
    current: ComponentView,
    types: Seq<DefinedTypeView>,
)
    requires
        stack.len() > 0,
        stack_ok(stack, start),
        starts_with(types, start),
        current.wf(types),
    ensures
        stack_ok(around(stack).push(current), types),
{
    let later = around(stack).push(current);
    assert forall|i: int| 0 <= i < later.len() implies (#[trigger] later[i]).wf(types) by {
        if i < stack.len() - 1 {
            lemma_component_longer(stack[i], start, types);
        }
    }
}

impl<'a> ComponentSection for SectionLimited<'a, ComponentTypeDef<'a>> {
    open spec fn name_of() -> &'static str {
        "type"
    }

    open spec fn counted(current: ComponentView, count: u32, offset: int) -> Result<()> {
        max_check(current.types.len() as int, count as int, MAX_WASM_TYPES, "types", offset)
    }

    open spec fn added(
        outer: Seq<ComponentView>,
        current: ComponentView,
        types: Seq<DefinedTypeView>,
        features: WasmFeatures,
        item: ComponentTypeDefView,
        offset: int,
    ) -> (ComponentView, Seq<DefinedTypeView>, Result<()>) {
        current.add_type(outer, types, item, features, offset)
    }

    proof fn item_keeps(
        outer: Seq<ComponentView>,
        current: ComponentView,
        types: Seq<DefinedTypeView>,
        features: WasmFeatures,
        item: ComponentTypeDefView,
        offset: int,
    ) {
        current.lemma_define_grows(outer, types, item, features, offset);
    }

    fn name() -> (name: &'static str) {
        "type"
    }

    fn count(
        components: &mut Vec<ComponentState>,
        types: &mut TypeList,
        count: u32,
        offset: usize,
    ) -> (result: Result<()>) {
        let ghost stack = views(components@);
        assert(stack.last() == components@.last()@);
        let current = components.last_mut().unwrap();
        let result = check_max(current.types.len(), count, MAX_WASM_TYPES, "types", offset);
        if result.is_ok() {
            types.reserve(count as usize);
            current.types.reserve(count as usize);
        }
        assert(views(components@) =~= stack);
        result
    }

    fn add(
        components: &mut Vec<ComponentState>,
        types: &mut TypeList,
        features: &WasmFeatures,
        item: ComponentTypeDef<'a>,
        offset: usize,
    ) -> (result: Result<()>) {
        ComponentState::add_type(components, &item, features, types, offset)
    }
}

impl<'a> ComponentSection for SectionLimited<'a, ComponentImport<'a>> {
    open spec fn name_of() -> &'static str {
        "import"
    }

    open spec fn counted(current: ComponentView, count: u32, offset: int) -> Result<()> {
        Ok(())
    }

    open spec fn added(
        outer: Seq<ComponentView>,
        current: ComponentView,
        types: Seq<DefinedTypeView>,
        features: WasmFeatures,
        item: ComponentImportView,
        offset: int,
    ) -> (ComponentView, Seq<DefinedTypeView>, Result<()>) {
        let (c, r) = current.add_import(types, item, offset);
        (c, types, r)
    }

    proof fn item_keeps(
        outer: Seq<ComponentView>,
        current: ComponentView,
        types: Seq<DefinedTypeView>,
        features: WasmFeatures,
        item: ComponentImportView,
        offset: int,
    ) {
    }

    fn name() -> (name: &'static str) {
        "import"
    }

    fn count(
        components: &mut Vec<ComponentState>,
        types: &mut TypeList,
        count: u32,
        offset: usize,
    ) -> (result: Result<()>) {
        // adding an import checks the limits
        Ok(())
    }

    fn add(
        components: &mut Vec<ComponentState>,
        types: &mut TypeList,
        features: &WasmFeatures,
        item: ComponentImport<'a>,
        offset: usize,
    ) -> (result: Result<()>) {
        let ghost stack = views(components@);
        let ghost before = types@;
        assert(stack.last() == components@.last()@);
        let current = components.last_mut().unwrap();
        let result = current.add_import(&item, types, offset);
        assert(views(components@) =~= around(stack).push(components@.last()@));
        proof {
            lemma_stack(stack, before, components@.last()@, types@);
        }
        result
    }
}

impl<'a> ComponentSection for SectionLimited<'a, ComponentFunction> {
    open spec fn name_of() -> &'static str {
        "function"
    }

    open spec fn counted(current: ComponentView, count: u32, offset: int) -> Result<()> {
        max_check(current.functions.len() as int, count as int, MAX_WASM_FUNCTIONS, "functions", offset)
    }

    open spec fn added(
        outer: Seq<ComponentView>,
        current: ComponentView,
        types: Seq<DefinedTypeView>,
        features: WasmFeatures,
        item: ComponentFunctionView,
        offset: int,
    ) -> (ComponentView, Seq<DefinedTypeView>, Result<()>) {
        match item {
            ComponentFunctionView::Lift { type_index, func_index, options } => {
                let (c, r) = current.lift_function(types, type_index, func_index, options, offset);
                (c, types, r)
            },
            ComponentFunctionView::Lower { func_index, options } => current.lower_function(
                types,
                func_index,
                options,
                offset,
            ),
        }
    }

    proof fn item_keeps(
        outer: Seq<ComponentView>,
        current: ComponentView,
        types: Seq<DefinedTypeView>,
        features: WasmFeatures,
        item: ComponentFunctionView,
        offset: int,
    ) {
    }

    fn name() -> (name: &'static str) {
        "function"
    }

    fn count(
        components: &mut Vec<ComponentState>,
        types: &mut TypeList,
        count: u32,
        offset: usize,
    ) -> (result: Result<()>) {
        let ghost stack = views(components@);
        assert(stack.last() == components@.last()@);
        let current = components.last_mut().unwrap();
        let result = check_max(current.functions.len(), count, MAX_WASM_FUNCTIONS, "functions", offset);
        if result.is_ok() {
            current.functions.reserve(count as usize);
        }
        assert(views(components@) =~= stack);
        result
    }

    fn add(
        components: &mut Vec<ComponentState>,
        types: &mut TypeList,
        features: &WasmFeatures,
        item: ComponentFunction,
        offset: usize,
    ) -> (result: Result<()>) {
        let ghost stack = views(components@);
        let ghost before = types@;
        assert(stack.last() == components@.last()@);
        let current = components.last_mut().unwrap();
        let result = match item {
            ComponentFunction::Lift { type_index, func_index, options } => current.lift_function(
                type_index,
                func_index,
                &options,
                types,
                offset,
            ),
            ComponentFunction::Lower { func_index, options } => current.lower_function(
                func_index,
                &options,
                types,
                offset,
            ),
        };
        assert(views(components@) =~= around(stack).push(components@.last()@));
        proof {
            lemma_stack(stack, before, components@.last()@, types@);
        }
        result
    }
}

impl<'a> ComponentSection for SectionLimited<'a, Instance<'a>> {
    open spec fn name_of() -> &'static str {
        "instance"
    }

    open spec fn counted(current: ComponentView, count: u32, offset: int) -> Result<()> {
        max_check(current.instances.len() as int, count as int, MAX_WASM_INSTANCES, "instances", offset)
    }

    open spec fn added(
        outer: Seq<ComponentView>,
        current: ComponentView,
        types: Seq<DefinedTypeView>,
        features: WasmFeatures,
        item: InstanceView,
        offset: int,
    ) -> (ComponentView, Seq<DefinedTypeView>, Result<()>) {
        current.add_instance(types, item, offset)
    }

    proof fn item_keeps(
        outer: Seq<ComponentView>,
        current: ComponentView,
        types: Seq<DefinedTypeView>,
        features: WasmFeatures,
        item: InstanceView,
        offset: int,
    ) {
    }

    fn name() -> (name: &'static str) {
        "instance"
    }

    fn count(
        components: &mut Vec<ComponentState>,
        types: &mut TypeList,
        count: u32,
        offset: usize,
    ) -> (result: Result<()>) {
        let ghost stack = views(components@);
        assert(stack.last() == components@.last()@);
        let current = components.last_mut().unwrap();
        let result = check_max(current.instances.len(), count, MAX_WASM_INSTANCES, "instances", offset);
        if result.is_ok() {
            current.instances.reserve(count as usize);
        }
        assert(views(components@) =~= stack);
        result
    }

    fn add(
        components: &mut Vec<ComponentState>,
        types: &mut TypeList,
        features: &WasmFeatures,
        item: Instance<'a>,
        offset: usize,
    ) -> (result: Result<()>) {
        let ghost stack = views(components@);
        let ghost before = types@;
        assert(stack.last() == components@.last()@);
        let current = components.last_mut().unwrap();
        let result = current.add_instance(&item, types, offset);
        assert(views(components@) =~= around(stack).push(components@.last()@));
        proof {
            lemma_stack(stack, before, components@.last()@, types@);
        }
        result
    }
}

impl<'a> ComponentSection for ComponentExportSectionReader<'a> {
    open spec fn name_of() -> &'static str {
        "export"
    }

    open spec fn counted(current: ComponentView, count: u32, offset: int) -> Result<()> {
        max_check(current.exports.len() as int, count as int, MAX_WASM_EXPORTS, "exports", offset)
    }

    open spec fn added(
        outer: Seq<ComponentView>,
        current: ComponentView,
        types: Seq<DefinedTypeView>,
        features: WasmFeatures,
        item: ComponentExportView,
        offset: int,
    ) -> (ComponentView, Seq<DefinedTypeView>, Result<()>) {
        let (c, r) = current.export(types, item, offset);
        (c, types, r)
    }

    proof fn item_keeps(
        outer: Seq<ComponentView>,
        current: ComponentView,
        types: Seq<DefinedTypeView>,
        features: WasmFeatures,
        item: ComponentExportView,
        offset: int,
    ) {
    }

    fn name() -> (name: &'static str) {
        "export"
    }

    fn count(
        components: &mut Vec<ComponentState>,
        types: &mut TypeList,
        count: u32,
        offset: usize,
    ) -> (result: Result<()>) {
        let ghost stack = views(components@);
        assert(stack.last() == components@.last()@);
        let current = components.last_mut().unwrap();
        let result = check_max(current.exports.len(), count, MAX_WASM_EXPORTS, "exports", offset);
        assert(views(components@) =~= stack);
        result
    }

    fn add(
        components: &mut Vec<ComponentState>,
        types: &mut TypeList,
        features: &WasmFeatures,
        item: ComponentExport<'a>,
        offset: usize,
    ) -> (result: Result<()>) {
        let ghost stack = views(components@);
        let ghost before = types@;
        assert(stack.last() == components@.last()@);
        let current = components.last_mut().unwrap();
        let result = match current.export_to_entity_type(&item, types, offset) {
            Ok(ty) => current.add_export(item.name, ty, offset),
            Err(e) => Err(e),
        };
        assert(views(components@) =~= around(stack).push(components@.last()@));
        proof {
            lemma_stack(stack, before, components@.last()@, types@);
        }
        result
    }
}

impl<'a> ComponentSection for SectionLimited<'a, Alias<'a>> {
    open spec fn name_of() -> &'static str {
        "alias"
    }

    open spec fn counted(current: ComponentView, count: u32, offset: int) -> Result<()> {
        Ok(())
    }

    open spec fn added(
        outer: Seq<ComponentView>,
        current: ComponentView,
        types: Seq<DefinedTypeView>,
        features: WasmFeatures,
        item: AliasView,
        offset: int,
    ) -> (ComponentView, Seq<DefinedTypeView>, Result<()>) {
        let (c, r) = current.add_alias(outer, types, item, offset);
        (c, types, r)
    }

    proof fn item_keeps(
        outer: Seq<ComponentView>,
        current: ComponentView,
        types: Seq<DefinedTypeView>,
        features: WasmFeatures,
        item: AliasView,
        offset: int,
    ) {
    }

    fn name() -> (name: &'static str) {
        "alias"
    }

    fn count(
        components: &mut Vec<ComponentState>,
        types: &mut TypeList,
        count: u32,
        offset: usize,
    ) -> (result: Result<()>) {
        // adding an alias checks the limits
        Ok(())
    }

    fn add(
        components: &mut Vec<ComponentState>,
        types: &mut TypeList,
        features: &WasmFeatures,
        item: Alias<'a>,
        offset: usize,
    ) -> (result: Result<()>) {
        ComponentState::add_alias(components, &item, types, offset)
    }
}

} // verus!
