//! What each section of a module does to the state of its validation.

use super::features::WasmFeatures;
use super::module::{memory_limit, table_limit, Order};
use super::module_state::{ModuleState, ModuleStateView};
use super::types::{lemma_types_ok_push, starts_with, types_ok, DefinedTypeView, TypeList};
use super::{check_max, max_check};
use crate::error::Result;
use crate::limits::{
    MAX_WASM_DATA_SEGMENTS, MAX_WASM_ELEMENT_SEGMENTS, MAX_WASM_EXPORTS, MAX_WASM_FUNCTIONS,
    MAX_WASM_GLOBALS, MAX_WASM_TAGS, MAX_WASM_TYPES,
};
use crate::reader::sections::{
    Data, DataSectionReader, DataView, Element, ElementView, Global, GlobalView, SectionLimited,
    SectionWithLimitedItems,
};
use crate::reader::types::{
    Export, ExportView, Import, ImportView, MemoryType, TableType, TagType, TypeDef, TypeDefView,
};
use vstd::prelude::*;

verus! {

/// A reader of a section of a module, with what the section does to the state.
pub trait ModuleSection: SectionWithLimitedItems + Copy {
    /// The place of the section among the others.
    spec fn order_of() -> Order;

    /// The name of the section in errors.
    spec fn name_of() -> &'static str;

    /// What the number of items does.
    spec fn counted(state: ModuleStateView, features: WasmFeatures, count: u32, offset: int) -> (
        ModuleStateView,
        Result<()>,
    );

    /// What an item does.
    spec fn added(
        state: ModuleStateView,
        features: WasmFeatures,
        types: Seq<DefinedTypeView>,
        item: <Self::Item as View>::V,
        offset: int,
    ) -> (ModuleStateView, Seq<DefinedTypeView>, Result<()>);

    /// The number of items changes nothing of where the section stands.
    proof fn count_keeps(state: ModuleStateView, features: WasmFeatures, count: u32, offset: int)
        ensures
            Self::counted(state, features, count, offset).0.order == state.order,
    ;

    /// An item changes only the module, and leaves the types that there are.
    proof fn item_keeps(
        state: ModuleStateView,
        features: WasmFeatures,
        types: Seq<DefinedTypeView>,
        item: <Self::Item as View>::V,
        offset: int,
    )
        ensures
            ({
                let (after, more, _) = Self::added(state, features, types, item, offset);
                after == state.with(after.module) && starts_with(more, types)
            }),
    ;

    /// The place of the section among the others.
    fn order() -> (order: Order)
        ensures
            order == Self::order_of(),
    ;

    /// The name of the section in errors.
    fn name() -> (name: &'static str)
        ensures
            name == Self::name_of(),
    ;

    /// Validates the number of items.
    fn count(
        state: &mut ModuleState,
        features: &WasmFeatures,
        types: &mut TypeList,
        count: u32,
        offset: usize,
    ) -> (result: Result<()>)
        requires
            old(state)@.wf(old(types)@),
            old(state)@.order == Self::order_of(),
        ensures
            final(types)@ == old(types)@,
            final(state)@.wf(old(types)@),
            final(state)@.order == old(state)@.order,
            (final(state)@, result) == Self::counted(
                old(state)@,
                *features,
                count,
                offset as int,
            ),
    ;

    /// Validates an item.
    fn add(
        state: &mut ModuleState,
        features: &WasmFeatures,
        types: &mut TypeList,
        item: Self::Item,
        offset: usize,
    ) -> (result: Result<()>)
        requires
            types_ok(old(types)@),
            old(state)@.wf(old(types)@),
            old(state)@.order == Self::order_of(),
            Self::valid_item(item@),
        ensures
            types_ok(final(types)@),
            starts_with(final(types)@, old(types)@),
            final(state)@.wf(final(types)@),
            final(state)@.order == old(state)@.order,
            (final(state)@, final(types)@, result) == Self::added(
                old(state)@,
                *features,
                old(types)@,
                item@,
                offset as int,
            ),
    ;
}

impl<'a> ModuleSection for SectionLimited<'a, TypeDef> {
    open spec fn order_of() -> Order {
        Order::Type
    }

    open spec fn name_of() -> &'static str {
        "type"
    }

    open spec fn counted(
        state: ModuleStateView,
        features: WasmFeatures,
        count: u32,
        offset: int,
    ) -> (ModuleStateView, Result<()>) {
        (
            state,
            max_check(
                state.module.types.len() as int,
                count as int,
                MAX_WASM_TYPES,
                "types",
                offset,
            ),
        )
    }

    open spec fn added(
        state: ModuleStateView,
        features: WasmFeatures,
        types: Seq<DefinedTypeView>,
        item: TypeDefView,
        offset: int,
    ) -> (ModuleStateView, Seq<DefinedTypeView>, Result<()>) {
        let (module, types, result) = state.module.add_type(types, item, features, offset);
        (state.with(module), types, result)
    }

    proof fn count_keeps(state: ModuleStateView, features: WasmFeatures, count: u32, offset: int) {
    }

    proof fn item_keeps(
        state: ModuleStateView,
        features: WasmFeatures,
        types: Seq<DefinedTypeView>,
        item: TypeDefView,
        offset: int,
    ) {
    }

    fn order() -> (order: Order) {
        Order::Type
    }

    fn name() -> (name: &'static str) {
        "type"
    }

    fn count(
        state: &mut ModuleState,
        features: &WasmFeatures,
        types: &mut TypeList,
        count: u32,
        offset: usize,
    ) -> (result: Result<()>) {
        check_max(state.module.get().types.len(), count, MAX_WASM_TYPES, "types", offset)?;
        types.reserve(count as usize);
        state.module.assert_mut().types.reserve(count as usize);
        Ok(())
    }

    fn add(
        state: &mut ModuleState,
        features: &WasmFeatures,
        types: &mut TypeList,
        item: TypeDef,
        offset: usize,
    ) -> (result: Result<()>) {
        proof {
            match item@ {
                TypeDefView::Func(ty) => {
                    lemma_types_ok_push(types@, DefinedTypeView::Func(ty));
                },
            }
        }
        state.module.assert_mut().add_type(&item, features, types, offset)
    }
}

impl<'a> ModuleSection for SectionLimited<'a, Import<'a>> {
    open spec fn order_of() -> Order {
        Order::Import
    }

    open spec fn name_of() -> &'static str {
        "import"
    }

    open spec fn counted(
        state: ModuleStateView,
        features: WasmFeatures,
        count: u32,
        offset: int,
    ) -> (ModuleStateView, Result<()>) {
        (state, Ok(()))
    }

    open spec fn added(
        state: ModuleStateView,
        features: WasmFeatures,
        types: Seq<DefinedTypeView>,
        item: ImportView,
        offset: int,
    ) -> (ModuleStateView, Seq<DefinedTypeView>, Result<()>) {
        let (module, result) = state.module.add_import(types, item, features, offset);
        (state.with(module), types, result)
    }

    proof fn count_keeps(state: ModuleStateView, features: WasmFeatures, count: u32, offset: int) {
    }

    proof fn item_keeps(
        state: ModuleStateView,
        features: WasmFeatures,
        types: Seq<DefinedTypeView>,
        item: ImportView,
        offset: int,
    ) {
    }

    fn order() -> (order: Order) {
        Order::Import
    }

    fn name() -> (name: &'static str) {
        "import"
    }

    fn count(
        state: &mut ModuleState,
        features: &WasmFeatures,
        types: &mut TypeList,
        count: u32,
        offset: usize,
    ) -> (result: Result<()>) {
        // adding an import checks the limits
        Ok(())
    }

    fn add(
        state: &mut ModuleState,
        features: &WasmFeatures,
        types: &mut TypeList,
        item: Import<'a>,
        offset: usize,
    ) -> (result: Result<()>) {
        state.module.assert_mut().add_import(item, features, types, offset)
    }
}

impl<'a> ModuleSection for SectionLimited<'a, u32> {
    open spec fn order_of() -> Order {
        Order::Function
    }

    open spec fn name_of() -> &'static str {
        "function"
    }

    open spec fn counted(
        state: ModuleStateView,
        features: WasmFeatures,
        count: u32,
        offset: int,
    ) -> (ModuleStateView, Result<()>) {
        match max_check(
            state.module.functions.len() as int,
            count as int,
            MAX_WASM_FUNCTIONS,
            "functions",
            offset,
        ) {
            Err(e) => (state, Err(e)),
            Ok(_) => (
                ModuleStateView { expected_code_bodies: Some(count), ..state },
                Ok(()),
            ),
        }
    }

    open spec fn added(
        state: ModuleStateView,
        features: WasmFeatures,
        types: Seq<DefinedTypeView>,
        item: u32,
        offset: int,
    ) -> (ModuleStateView, Seq<DefinedTypeView>, Result<()>) {
        let (module, result) = state.module.add_function(types, item, offset);
        (state.with(module), types, result)
    }

    proof fn count_keeps(state: ModuleStateView, features: WasmFeatures, count: u32, offset: int) {
    }

    proof fn item_keeps(
        state: ModuleStateView,
        features: WasmFeatures,
        types: Seq<DefinedTypeView>,
        item: u32,
        offset: int,
    ) {
    }

    fn order() -> (order: Order) {
        Order::Function
    }

    fn name() -> (name: &'static str) {
        "function"
    }

    fn count(
        state: &mut ModuleState,
        features: &WasmFeatures,
        types: &mut TypeList,
        count: u32,
        offset: usize,
    ) -> (result: Result<()>) {
        check_max(
            state.module.get().functions.len(),
            count,
            MAX_WASM_FUNCTIONS,
            "functions",
            offset,
        )?;
        state.module.assert_mut().functions.reserve(count as usize);
        state.expected_code_bodies = Some(count);
        Ok(())
    }

    fn add(
        state: &mut ModuleState,
        features: &WasmFeatures,
        types: &mut TypeList,
        item: u32,
        offset: usize,
    ) -> (result: Result<()>) {
        state.module.assert_mut().add_function(item, types, offset)
    }
}

impl<'a> ModuleSection for SectionLimited<'a, TableType> {
    open spec fn order_of() -> Order {
        Order::Table
    }

    open spec fn name_of() -> &'static str {
        "table"
    }

    open spec fn counted(
        state: ModuleStateView,
        features: WasmFeatures,
        count: u32,
        offset: int,
    ) -> (ModuleStateView, Result<()>) {
        (
            state,
            max_check(
                state.module.tables.len() as int,
                count as int,
                table_limit(features),
                "tables",
                offset,
            ),
        )
    }

    open spec fn added(
        state: ModuleStateView,
        features: WasmFeatures,
        types: Seq<DefinedTypeView>,
        item: TableType,
        offset: int,
    ) -> (ModuleStateView, Seq<DefinedTypeView>, Result<()>) {
        let (module, result) = state.module.add_table(item, features, offset);
        (state.with(module), types, result)
    }

    proof fn count_keeps(state: ModuleStateView, features: WasmFeatures, count: u32, offset: int) {
    }

    proof fn item_keeps(
        state: ModuleStateView,
        features: WasmFeatures,
        types: Seq<DefinedTypeView>,
        item: TableType,
        offset: int,
    ) {
    }

    fn order() -> (order: Order) {
        Order::Table
    }

    fn name() -> (name: &'static str) {
        "table"
    }

    fn count(
        state: &mut ModuleState,
        features: &WasmFeatures,
        types: &mut TypeList,
        count: u32,
        offset: usize,
    ) -> (result: Result<()>) {
        let module = state.module.get();
        check_max(module.tables.len(), count, module.max_tables(features), "tables", offset)?;
        state.module.assert_mut().tables.reserve(count as usize);
        Ok(())
    }

    fn add(
        state: &mut ModuleState,
        features: &WasmFeatures,
        types: &mut TypeList,
        item: TableType,
        offset: usize,
    ) -> (result: Result<()>) {
        state.module.assert_mut().add_table(item, features, offset)
    }
}

impl<'a> ModuleSection for SectionLimited<'a, MemoryType> {
    open spec fn order_of() -> Order {
        Order::Memory
    }

    open spec fn name_of() -> &'static str {
        "memory"
    }

    open spec fn counted(
        state: ModuleStateView,
        features: WasmFeatures,
        count: u32,
        offset: int,
    ) -> (ModuleStateView, Result<()>) {
        (
            state,
            max_check(
                state.module.memories.len() as int,
                count as int,
                memory_limit(features),
                "memories",
                offset,
            ),
        )
    }

    open spec fn added(
        state: ModuleStateView,
        features: WasmFeatures,
        types: Seq<DefinedTypeView>,
        item: MemoryType,
        offset: int,
    ) -> (ModuleStateView, Seq<DefinedTypeView>, Result<()>) {
        let (module, result) = state.module.add_memory(item, features, offset);
        (state.with(module), types, result)
    }

    proof fn count_keeps(state: ModuleStateView, features: WasmFeatures, count: u32, offset: int) {
    }

    proof fn item_keeps(
        state: ModuleStateView,
        features: WasmFeatures,
        types: Seq<DefinedTypeView>,
        item: MemoryType,
        offset: int,
    ) {
    }

    fn order() -> (order: Order) {
        Order::Memory
    }

    fn name() -> (name: &'static str) {
        "memory"
    }

    fn count(
        state: &mut ModuleState,
        features: &WasmFeatures,
        types: &mut TypeList,
        count: u32,
        offset: usize,
    ) -> (result: Result<()>) {
        let module = state.module.get();
        check_max(module.memories.len(), count, module.max_memories(features), "memories", offset)?;
        state.module.assert_mut().memories.reserve(count as usize);
        Ok(())
    }

    fn add(
        state: &mut ModuleState,
        features: &WasmFeatures,
        types: &mut TypeList,
        item: MemoryType,
        offset: usize,
    ) -> (result: Result<()>) {
        state.module.assert_mut().add_memory(item, features, offset)
    }
}

impl<'a> ModuleSection for SectionLimited<'a, TagType> {
    open spec fn order_of() -> Order {
        Order::Tag
    }

    open spec fn name_of() -> &'static str {
        "tag"
    }

    open spec fn counted(
        state: ModuleStateView,
        features: WasmFeatures,
        count: u32,
        offset: int,
    ) -> (ModuleStateView, Result<()>) {
        (
            state,
            max_check(
                state.module.tags.len() as int,
                count as int,
                MAX_WASM_TAGS,
                "tags",
                offset,
            ),
        )
    }

    open spec fn added(
        state: ModuleStateView,
        features: WasmFeatures,
        types: Seq<DefinedTypeView>,
        item: TagType,
        offset: int,
    ) -> (ModuleStateView, Seq<DefinedTypeView>, Result<()>) {
        let (module, result) = state.module.add_tag(types, item, features, offset);
        (state.with(module), types, result)
    }

    proof fn count_keeps(state: ModuleStateView, features: WasmFeatures, count: u32, offset: int) {
    }

    proof fn item_keeps(
        state: ModuleStateView,
        features: WasmFeatures,
        types: Seq<DefinedTypeView>,
        item: TagType,
        offset: int,
    ) {
    }

    fn order() -> (order: Order) {
        Order::Tag
    }

    fn name() -> (name: &'static str) {
        "tag"
    }

    fn count(
        state: &mut ModuleState,
        features: &WasmFeatures,
        types: &mut TypeList,
        count: u32,
        offset: usize,
    ) -> (result: Result<()>) {
        check_max(state.module.get().tags.len(), count, MAX_WASM_TAGS, "tags", offset)?;
        state.module.assert_mut().tags.reserve(count as usize);
        Ok(())
    }

    fn add(
        state: &mut ModuleState,
        features: &WasmFeatures,
        types: &mut TypeList,
        item: TagType,
        offset: usize,
    ) -> (result: Result<()>) {
        state.module.assert_mut().add_tag(item, features, types, offset)
    }
}

impl<'a> ModuleSection for SectionLimited<'a, Global<'a>> {
    open spec fn order_of() -> Order {
        Order::Global
    }

    open spec fn name_of() -> &'static str {
        "global"
    }

    open spec fn counted(
        state: ModuleStateView,
        features: WasmFeatures,
        count: u32,
        offset: int,
    ) -> (ModuleStateView, Result<()>) {
        (
            state,
            max_check(
                state.module.globals.len() as int,
                count as int,
                MAX_WASM_GLOBALS,
                "globals",
                offset,
            ),
        )
    }

    open spec fn added(
        state: ModuleStateView,
        features: WasmFeatures,
        types: Seq<DefinedTypeView>,
        item: GlobalView,
        offset: int,
    ) -> (ModuleStateView, Seq<DefinedTypeView>, Result<()>) {
        let (module, result) = state.module.add_global(item, features, offset);
        (state.with(module), types, result)
    }

    proof fn count_keeps(state: ModuleStateView, features: WasmFeatures, count: u32, offset: int) {
    }

    proof fn item_keeps(
        state: ModuleStateView,
        features: WasmFeatures,
        types: Seq<DefinedTypeView>,
        item: GlobalView,
        offset: int,
    ) {
    }

    fn order() -> (order: Order) {
        Order::Global
    }

    fn name() -> (name: &'static str) {
        "global"
    }

    fn count(
        state: &mut ModuleState,
        features: &WasmFeatures,
        types: &mut TypeList,
        count: u32,
        offset: usize,
    ) -> (result: Result<()>) {
        check_max(state.module.get().globals.len(), count, MAX_WASM_GLOBALS, "globals", offset)?;
        state.module.assert_mut().globals.reserve(count as usize);
        Ok(())
    }

    fn add(
        state: &mut ModuleState,
        features: &WasmFeatures,
        types: &mut TypeList,
        item: Global<'a>,
        offset: usize,
    ) -> (result: Result<()>) {
        state.module.assert_mut().add_global(item, features, offset)
    }
}

impl<'a> ModuleSection for SectionLimited<'a, Export<'a>> {
    open spec fn order_of() -> Order {
        Order::Export
    }

    open spec fn name_of() -> &'static str {
        "export"
    }

    open spec fn counted(
        state: ModuleStateView,
        features: WasmFeatures,
        count: u32,
        offset: int,
    ) -> (ModuleStateView, Result<()>) {
        (
            state,
            max_check(
                state.module.exports.len() as int,
                count as int,
                MAX_WASM_EXPORTS,
                "exports",
                offset,
            ),
        )
    }

    open spec fn added(
        state: ModuleStateView,
        features: WasmFeatures,
        types: Seq<DefinedTypeView>,
        item: ExportView,
        offset: int,
    ) -> (ModuleStateView, Seq<DefinedTypeView>, Result<()>) {
        let (module, result) = state.module.export(item, features, offset);
        (state.with(module), types, result)
    }

    proof fn count_keeps(state: ModuleStateView, features: WasmFeatures, count: u32, offset: int) {
    }

    proof fn item_keeps(
        state: ModuleStateView,
        features: WasmFeatures,
        types: Seq<DefinedTypeView>,
        item: ExportView,
        offset: int,
    ) {
    }

    fn order() -> (order: Order) {
        Order::Export
    }

    fn name() -> (name: &'static str) {
        "export"
    }

    fn count(
        state: &mut ModuleState,
        features: &WasmFeatures,
        types: &mut TypeList,
        count: u32,
        offset: usize,
    ) -> (result: Result<()>) {
        check_max(state.module.get().exports.len(), count, MAX_WASM_EXPORTS, "exports", offset)
    }

    fn add(
        state: &mut ModuleState,
        features: &WasmFeatures,
        types: &mut TypeList,
        item: Export<'a>,
        offset: usize,
    ) -> (result: Result<()>) {
        let module = state.module.assert_mut();
        let ty = module.export_to_entity_type(&item, offset)?;
        module.add_export(item.name, ty, features, offset)
    }
}

impl<'a> ModuleSection for SectionLimited<'a, Element<'a>> {
    open spec fn order_of() -> Order {
        Order::Element
    }

    open spec fn name_of() -> &'static str {
        "element"
    }

    open spec fn counted(
        state: ModuleStateView,
        features: WasmFeatures,
        count: u32,
        offset: int,
    ) -> (ModuleStateView, Result<()>) {
        (
            state,
            max_check(
                state.module.element_types.len() as int,
                count as int,
                MAX_WASM_ELEMENT_SEGMENTS,
                "element segments",
                offset,
            ),
        )
    }

    open spec fn added(
        state: ModuleStateView,
        features: WasmFeatures,
        types: Seq<DefinedTypeView>,
        item: ElementView,
        offset: int,
    ) -> (ModuleStateView, Seq<DefinedTypeView>, Result<()>) {
        let (module, result) = state.module.add_element_segment(item, features, offset);
        (state.with(module), types, result)
    }

    proof fn count_keeps(state: ModuleStateView, features: WasmFeatures, count: u32, offset: int) {
    }

    proof fn item_keeps(
        state: ModuleStateView,
        features: WasmFeatures,
        types: Seq<DefinedTypeView>,
        item: ElementView,
        offset: int,
    ) {
    }

    fn order() -> (order: Order) {
        Order::Element
    }

    fn name() -> (name: &'static str) {
        "element"
    }

    fn count(
        state: &mut ModuleState,
        features: &WasmFeatures,
        types: &mut TypeList,
        count: u32,
        offset: usize,
    ) -> (result: Result<()>) {
        check_max(
            state.module.get().element_types.len(),
            count,
            MAX_WASM_ELEMENT_SEGMENTS,
            "element segments",
            offset,
        )?;
        state.module.assert_mut().element_types.reserve(count as usize);
        Ok(())
    }

    fn add(
        state: &mut ModuleState,
        features: &WasmFeatures,
        types: &mut TypeList,
        item: Element<'a>,
        offset: usize,
    ) -> (result: Result<()>) {
        proof {
            state@.module.lemma_element_keeps(item@, *features, offset as int);
        }
        state.module.assert_mut().add_element_segment(item, features, offset)
    }
}

impl<'a> ModuleSection for DataSectionReader<'a> {
    open spec fn order_of() -> Order {
        Order::Data
    }

    open spec fn name_of() -> &'static str {
        "data"
    }

    open spec fn counted(
        state: ModuleStateView,
        features: WasmFeatures,
        count: u32,
        offset: int,
    ) -> (ModuleStateView, Result<()>) {
        (
            ModuleStateView { data_segment_count: count, ..state },
            max_check(
                match state.module.data_count {
                    Some(promised) => promised as int,
                    None => 0,
                },
                count as int,
                MAX_WASM_DATA_SEGMENTS,
                "data segments",
                offset,
            ),
        )
    }

    open spec fn added(
        state: ModuleStateView,
        features: WasmFeatures,
        types: Seq<DefinedTypeView>,
        item: DataView,
        offset: int,
    ) -> (ModuleStateView, Seq<DefinedTypeView>, Result<()>) {
        (state, types, state.module.data_segment(item, features, offset))
    }

    proof fn count_keeps(state: ModuleStateView, features: WasmFeatures, count: u32, offset: int) {
    }

    proof fn item_keeps(
        state: ModuleStateView,
        features: WasmFeatures,
        types: Seq<DefinedTypeView>,
        item: DataView,
        offset: int,
    ) {
    }

    fn order() -> (order: Order) {
        Order::Data
    }

    fn name() -> (name: &'static str) {
        "data"
    }

    fn count(
        state: &mut ModuleState,
        features: &WasmFeatures,
        types: &mut TypeList,
        count: u32,
        offset: usize,
    ) -> (result: Result<()>) {
        state.data_segment_count = count;
        let promised = match state.module.get().data_count {
            Some(promised) => promised as usize,
            None => 0,
        };
        check_max(promised, count, MAX_WASM_DATA_SEGMENTS, "data segments", offset)
    }

    fn add(
        state: &mut ModuleState,
        features: &WasmFeatures,
        types: &mut TypeList,
        item: Data<'a>,
        offset: usize,
    ) -> (result: Result<()>) {
        state.module.get().check_data_segment(&item, features, offset)
    }
}

} // verus!
