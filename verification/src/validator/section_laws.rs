//! What the sections of a module define.

use super::definition_laws::{
    exported, fresh, good_import, good_memory, good_table, good_tag, has_type, has_types,
};
use super::features::WasmFeatures;
use super::laws::law_section_keeps_state;
use super::module::{ModuleView, Order};
use super::module_sections::ModuleSection;
use super::module_state::ModuleStateView;
use super::names::names_once;
use super::types::{
    lemma_starts_with_both, starts_with, DefinedTypeView, EntityType, ModuleImportView,
};
use super::{module_items, State, ValidatorView};
use crate::parser::{PayloadView, SectionKind};
use crate::reader::binary_reader::{Cursor, Range};
use crate::reader::sections::{
    DataKindView, DataSectionReader, DataView, ElementItemsView, ElementSectionReader, ElementView,
    ExportSectionReader, FunctionSectionReader, GlobalSectionReader, GlobalView,
    ImportSectionReader, MemorySectionReader, PlacedView, SectionReader, SectionView,
    TableSectionReader, TagSectionReader, TypeSectionReader,
};
use crate::reader::types::{
    ExportView, GlobalType, ImportView, MemoryType, TableType, TagType, Type, TypeDefView, TypeRef,
};
use vstd::prelude::*;

verus! {

/// The items of a section from a place on, as they are read one behind the other, and the place
/// behind them.
pub open spec fn read<T: SectionReader>(section: SectionView, n: nat) -> (
    Seq<<T::Item as View>::V>,
    Cursor,
)
    decreases n,
{
    if n == 0 {
        (Seq::empty(), section.cursor)
    } else {
        match T::parse_item(section.forbid_bulk_memory, section.cursor) {
            (c, Ok(item)) => {
                let (items, end) = read::<T>(section.at(c), (n - 1) as nat);
                (seq![item] + items, end)
            },
            (c, Err(_)) => (Seq::empty(), c),
        }
    }
}

/// An item of a section puts one thing, which depends on the item alone, behind those of its kind.
pub open spec fn puts<T: ModuleSection, A>(
    features: WasmFeatures,
    inv: spec_fn(ModuleView, Seq<DefinedTypeView>) -> bool,
    good: spec_fn(<T::Item as View>::V) -> bool,
    field: spec_fn(ModuleView, Seq<DefinedTypeView>) -> Seq<A>,
    value: spec_fn(<T::Item as View>::V) -> A,
) -> bool {
    forall|st: ModuleStateView, ts: Seq<DefinedTypeView>, item: <T::Item as View>::V, offset: int|
        inv(st.module, ts) && (#[trigger] T::added(st, features, ts, item, offset)).2 is Ok ==> {
            let (after, more, _) = T::added(st, features, ts, item, offset);
            &&& good(item)
            &&& inv(after.module, more)
            &&& field(after.module, more) == field(st.module, ts).push(value(item))
        }
}

proof fn lemma_put<T: ModuleSection, A>(
    state: ModuleStateView,
    types: Seq<DefinedTypeView>,
    features: WasmFeatures,
    section: SectionView,
    n: nat,
    inv: spec_fn(ModuleView, Seq<DefinedTypeView>) -> bool,
    good: spec_fn(<T::Item as View>::V) -> bool,
    field: spec_fn(ModuleView, Seq<DefinedTypeView>) -> Seq<A>,
    value: spec_fn(<T::Item as View>::V) -> A,
)
    requires
        inv(state.module, types),
        puts::<T, A>(features, inv, good, field, value),
        module_items::<T>(state, types, features, section, n).2 is Ok,
    ensures
        ({
            let (after, more, _) = module_items::<T>(state, types, features, section, n);
            let (items, end) = read::<T>(section, n);
            &&& items.len() == n
            &&& end.pos >= end.bytes.len()
            &&& inv(after.module, more)
            &&& forall|i: int| 0 <= i < n ==> good(#[trigger] items[i])
            &&& field(after.module, more) == field(state.module, types) + items.map_values(value)
        }),
    decreases n,
{
    let (items, end) = read::<T>(section, n);
    if n == 0 {
        assert(field(state.module, types) + items.map_values(value) =~= field(
            state.module,
            types,
        ));
    } else {
        let (c, r) = T::parse_item(section.forbid_bulk_memory, section.cursor);
        let item = r->Ok_0;
        let (st, ts, _) = T::added(state, features, types, item, section.cursor.offset());
        lemma_put::<T, A>(
            st,
            ts,
            features,
            section.at(c),
            (n - 1) as nat,
            inv,
            good,
            field,
            value,
        );
        let (later, _) = read::<T>(section.at(c), (n - 1) as nat);
        assert(items =~= seq![item] + later);
        assert(items.map_values(value) =~= seq![value(item)] + later.map_values(value));
        assert(field(state.module, types) + items.map_values(value) =~= field(
            state.module,
            types,
        ).push(value(item)) + later.map_values(value));
        assert forall|i: int| 0 <= i < n implies good(#[trigger] items[i]) by {
            if i > 0 {
                assert(items[i] == later[i - 1]);
            }
        }
    }
}

/// A section of a module that is accepted, and the module before and behind it.
pub open spec fn accepted(v: ValidatorView, kind: SectionKind, s: SectionView) -> bool {
    &&& v.wf()
    &&& v.state == State::Module
    &&& v.payload(PayloadView::Section(kind, s)).1 is Ok
}

/// The module behind a section.
pub open spec fn module_behind(v: ValidatorView, kind: SectionKind, s: SectionView) -> ModuleView {
    v.payload(PayloadView::Section(kind, s)).0.module->0.module
}

/// The functions that a function section names come behind those that there are, in order, each of
/// a type that is there, and there are at most a million.
pub proof fn law_function_section(v: ValidatorView, s: SectionView)
    requires
        accepted(v, SectionKind::Function, s),
    ensures
        ({
            let before = v.module->0.module;
            let behind = module_behind(v, SectionKind::Function, s);
            let (items, end) = read::<FunctionSectionReader>(s, s.count as nat);
            &&& items.len() == s.count
            &&& end.pos >= end.bytes.len()
            &&& behind == (ModuleView { functions: before.functions + items, ..before })
            &&& forall|i: int| 0 <= i < items.len() ==> #[trigger] items[i] < before.types.len()
            &&& before.functions.len() + s.count <= 1_000_000
        }),
{
    let before = v.module->0.module;
    let state = ModuleStateView {
        order: Order::Function,
        expected_code_bodies: Some(s.count),
        ..v.module->0
    };
    let inv = |m: ModuleView, ts: Seq<DefinedTypeView>|
        m == (ModuleView { functions: m.functions, ..before });
    let good = |ty: u32| ty < before.types.len();
    let field = |m: ModuleView, ts: Seq<DefinedTypeView>| m.functions;
    let value = |ty: u32| ty;
    lemma_put::<FunctionSectionReader, u32>(
        state,
        v.types,
        v.features,
        s,
        s.count as nat,
        inv,
        good,
        field,
        value,
    );
    let items = read::<FunctionSectionReader>(s, s.count as nat).0;
    assert(items.map_values(value) =~= items);
}

/// The tables of a table section come behind those that there are, in order, each of a type that can
/// be had. There is one, or, with the reference types proposal, at most a hundred.
pub proof fn law_table_section(v: ValidatorView, s: SectionView)
    requires
        accepted(v, SectionKind::Table, s),
    ensures
        ({
            let before = v.module->0.module;
            let behind = module_behind(v, SectionKind::Table, s);
            let (items, end) = read::<TableSectionReader>(s, s.count as nat);
            &&& items.len() == s.count
            &&& end.pos >= end.bytes.len()
            &&& behind == (ModuleView { tables: before.tables + items, ..before })
            &&& forall|i: int| 0 <= i < items.len() ==> good_table(v.features, #[trigger] items[i])
            &&& before.tables.len() + s.count <= if v.features.reference_types {
                100int
            } else {
                1int
            }
        }),
{
    let before = v.module->0.module;
    let state = ModuleStateView { order: Order::Table, ..v.module->0 };
    let inv = |m: ModuleView, ts: Seq<DefinedTypeView>|
        m == (ModuleView { tables: m.tables, ..before });
    let good = |ty: TableType| good_table(v.features, ty);
    let field = |m: ModuleView, ts: Seq<DefinedTypeView>| m.tables;
    let value = |ty: TableType| ty;
    lemma_put::<TableSectionReader, TableType>(
        state,
        v.types,
        v.features,
        s,
        s.count as nat,
        inv,
        good,
        field,
        value,
    );
    let items = read::<TableSectionReader>(s, s.count as nat).0;
    assert(items.map_values(value) =~= items);
    assert forall|i: int| 0 <= i < items.len() implies good_table(
        v.features,
        #[trigger] items[i],
    ) by {
        assert(good(items[i]));
    }
}

/// The memories of a memory section come behind those that there are, in order, each of a type that
/// can be had. There is one, or, with the multi-memory proposal, at most a hundred.
pub proof fn law_memory_section(v: ValidatorView, s: SectionView)
    requires
        accepted(v, SectionKind::Memory, s),
    ensures
        ({
            let before = v.module->0.module;
            let behind = module_behind(v, SectionKind::Memory, s);
            let (items, end) = read::<MemorySectionReader>(s, s.count as nat);
            &&& items.len() == s.count
            &&& end.pos >= end.bytes.len()
            &&& behind == (ModuleView { memories: before.memories + items, ..before })
            &&& forall|i: int| 0 <= i < items.len() ==> good_memory(v.features, #[trigger] items[i])
            &&& before.memories.len() + s.count <= if v.features.multi_memory {
                100int
            } else {
                1int
            }
        }),
{
    let before = v.module->0.module;
    let state = ModuleStateView { order: Order::Memory, ..v.module->0 };
    let inv = |m: ModuleView, ts: Seq<DefinedTypeView>|
        m == (ModuleView { memories: m.memories, ..before });
    let good = |ty: MemoryType| good_memory(v.features, ty);
    let field = |m: ModuleView, ts: Seq<DefinedTypeView>| m.memories;
    let value = |ty: MemoryType| ty;
    lemma_put::<MemorySectionReader, MemoryType>(
        state,
        v.types,
        v.features,
        s,
        s.count as nat,
        inv,
        good,
        field,
        value,
    );
    let items = read::<MemorySectionReader>(s, s.count as nat).0;
    assert(items.map_values(value) =~= items);
    assert forall|i: int| 0 <= i < items.len() implies good_memory(
        v.features,
        #[trigger] items[i],
    ) by {
        assert(good(items[i]));
    }
}

/// The tags of a tag section come behind those that there are, in order, each of a function type
/// that is there and gives nothing.
pub proof fn law_tag_section(v: ValidatorView, s: SectionView)
    requires
        accepted(v, SectionKind::Tag, s),
    ensures
        ({
            let before = v.module->0.module;
            let behind = module_behind(v, SectionKind::Tag, s);
            let (items, end) = read::<TagSectionReader>(s, s.count as nat);
            &&& v.features.exceptions
            &&& items.len() == s.count
            &&& end.pos >= end.bytes.len()
            &&& behind == (ModuleView {
                tags: before.tags + Seq::new(
                    items.len(),
                    |i: int| before.types[items[i].func_type_idx as int],
                ),
                ..before
            })
            &&& forall|i: int|
                0 <= i < items.len() ==> good_tag(
                    before,
                    v.types,
                    v.features,
                    (#[trigger] items[i]).func_type_idx,
                )
            &&& before.tags.len() + s.count <= 1_000_000
        }),
{
    let before = v.module->0.module;
    let state = ModuleStateView { order: Order::Tag, ..v.module->0 };
    let inv = |m: ModuleView, ts: Seq<DefinedTypeView>|
        m == (ModuleView { tags: m.tags, ..before }) && ts == v.types;
    let good = |ty: TagType| good_tag(before, v.types, v.features, ty.func_type_idx);
    let field = |m: ModuleView, ts: Seq<DefinedTypeView>| m.tags;
    let value = |ty: TagType| before.types[ty.func_type_idx as int];
    lemma_put::<TagSectionReader, usize>(
        state,
        v.types,
        v.features,
        s,
        s.count as nat,
        inv,
        good,
        field,
        value,
    );
    let items = read::<TagSectionReader>(s, s.count as nat).0;
    assert(items.map_values(value) =~= Seq::new(
        items.len(),
        |i: int| before.types[items[i].func_type_idx as int],
    ));
    assert forall|i: int| 0 <= i < items.len() implies good_tag(
        before,
        v.types,
        v.features,
        (#[trigger] items[i]).func_type_idx,
    ) by {
        assert(good(items[i]));
    }
}

/// The globals of a global section come behind those that there are, in order.
pub proof fn law_global_section(v: ValidatorView, s: SectionView)
    requires
        accepted(v, SectionKind::Global, s),
    ensures
        ({
            let before = v.module->0.module;
            let behind = module_behind(v, SectionKind::Global, s);
            let (items, end) = read::<GlobalSectionReader>(s, s.count as nat);
            &&& items.len() == s.count
            &&& end.pos >= end.bytes.len()
            &&& behind == (ModuleView {
                globals: before.globals + Seq::new(items.len(), |i: int| items[i].ty),
                function_references: behind.function_references,
                ..before
            })
            &&& forall|i: int|
                0 <= i < items.len() ==> has_type(
                    v.features,
                    (#[trigger] items[i]).ty.content_type,
                )
            &&& before.globals.len() + s.count <= 1_000_000
        }),
{
    let before = v.module->0.module;
    let state = ModuleStateView { order: Order::Global, ..v.module->0 };
    let inv = |m: ModuleView, ts: Seq<DefinedTypeView>|
        m == (ModuleView {
            globals: m.globals,
            function_references: m.function_references,
            ..before
        });
    let good = |global: GlobalView| has_type(v.features, global.ty.content_type);
    let field = |m: ModuleView, ts: Seq<DefinedTypeView>| m.globals;
    let value = |global: GlobalView| global.ty;
    lemma_put::<GlobalSectionReader, GlobalType>(
        state,
        v.types,
        v.features,
        s,
        s.count as nat,
        inv,
        good,
        field,
        value,
    );
    let items = read::<GlobalSectionReader>(s, s.count as nat).0;
    assert(items.map_values(value) =~= Seq::new(items.len(), |i: int| items[i].ty));
    assert forall|i: int| 0 <= i < items.len() implies has_type(
        v.features,
        (#[trigger] items[i]).ty.content_type,
    ) by {
        assert(good(items[i]));
    }
}

/// The segments of an element section come behind those that there are, in order.
pub proof fn law_element_section(v: ValidatorView, s: SectionView)
    requires
        accepted(v, SectionKind::Element, s),
    ensures
        ({
            let before = v.module->0.module;
            let behind = module_behind(v, SectionKind::Element, s);
            let (items, end) = read::<ElementSectionReader>(s, s.count as nat);
            &&& items.len() == s.count
            &&& end.pos >= end.bytes.len()
            &&& behind == (ModuleView {
                element_types: before.element_types + Seq::new(
                    items.len(),
                    |i: int| items[i].ty,
                ),
                function_references: behind.function_references,
                ..before
            })
            &&& before.element_types.len() + s.count <= 100_000
        }),
{
    let before = v.module->0.module;
    let state = ModuleStateView { order: Order::Element, ..v.module->0 };
    let inv = |m: ModuleView, ts: Seq<DefinedTypeView>|
        m == (ModuleView {
            element_types: m.element_types,
            function_references: m.function_references,
            ..before
        });
    let good = |element: ElementView| true;
    let field = |m: ModuleView, ts: Seq<DefinedTypeView>| m.element_types;
    let value = |element: ElementView| element.ty;
    assert(puts::<ElementSectionReader, Type>(v.features, inv, good, field, value)) by {
        assert forall|
            st: ModuleStateView,
            ts: Seq<DefinedTypeView>,
            item: ElementView,
            offset: int,
        |
            inv(st.module, ts) && (#[trigger] <ElementSectionReader as ModuleSection>::added(
                st,
                v.features,
                ts,
                item,
                offset,
            )).2 is Ok implies {
            let (after, more, _) = <ElementSectionReader as ModuleSection>::added(
                st,
                v.features,
                ts,
                item,
                offset,
            );
            &&& good(item)
            &&& inv(after.module, more)
            &&& field(after.module, more) == field(st.module, ts).push(value(item))
        } by {
            st.module.lemma_element_keeps(item, v.features, offset);
            if let Ok(refs) = st.module.element_kind(item, v.features, offset) {
                st.module.refer(refs).lemma_keeps_types(item, v.features, offset);
            }
        }
    }
    lemma_put::<ElementSectionReader, Type>(
        state,
        v.types,
        v.features,
        s,
        s.count as nat,
        inv,
        good,
        field,
        value,
    );
    let items = read::<ElementSectionReader>(s, s.count as nat).0;
    assert(items.map_values(value) =~= Seq::new(items.len(), |i: int| items[i].ty));
}

/// A place is `at`, and the function type of `item` stands there.
pub open spec fn defined(
    place: usize,
    types: Seq<DefinedTypeView>,
    at: int,
    item: TypeDefView,
) -> bool {
    place == at && types[at] == DefinedTypeView::Func(item->Func_0)
}

/// What a function type takes and gives can be had; it gives many values only with the multi-value
/// proposal.
pub open spec fn good_type(features: WasmFeatures, def: TypeDefView) -> bool {
    &&& has_types(features, def->Func_0.params)
    &&& has_types(features, def->Func_0.returns)
    &&& def->Func_0.returns.len() <= 1 || features.multi_value
}

/// The function types of a type section come behind those that there are, in order; what they take
/// and give has to be enabled.
pub proof fn law_type_section(v: ValidatorView, s: SectionView)
    requires
        accepted(v, SectionKind::Type, s),
        v.types.len() + s.count < usize::MAX,
    ensures
        ({
            let before = v.module->0.module;
            let behind = module_behind(v, SectionKind::Type, s);
            let types = v.payload(PayloadView::Section(SectionKind::Type, s)).0.types;
            let (items, end) = read::<TypeSectionReader>(s, s.count as nat);
            let k = before.types.len();
            &&& items.len() == s.count
            &&& end.pos >= end.bytes.len()
            &&& behind == (ModuleView { types: behind.types, ..before })
            &&& behind.types.len() == k + s.count
            &&& behind.types.take(k as int) == before.types
            &&& types.len() == v.types.len() + s.count
            &&& forall|i: int|
                0 <= i < items.len() ==> types[behind.types[k + i] as int]
                    == DefinedTypeView::Func((#[trigger] items[i])->Func_0)
            &&& forall|i: int|
                0 <= i < items.len() ==> good_type(v.features, #[trigger] items[i])
            &&& k + s.count <= 1_000_000
        }),
{
    let before = v.module->0.module;
    let state = ModuleStateView { order: Order::Type, ..v.module->0 };
    lemma_types(state, v.types, v.features, s, s.count as nat);
    let behind = module_behind(v, SectionKind::Type, s);
    assert(behind.types.take(before.types.len() as int) =~= before.types);
}

proof fn lemma_types(
    state: ModuleStateView,
    types: Seq<DefinedTypeView>,
    features: WasmFeatures,
    s: SectionView,
    n: nat,
)
    requires
        module_items::<TypeSectionReader>(state, types, features, s, n).2 is Ok,
        types.len() + n < usize::MAX,
    ensures
        read::<TypeSectionReader>(s, n).0.len() == n,
        read::<TypeSectionReader>(s, n).1.pos >= read::<TypeSectionReader>(s, n).1.bytes.len(),
        module_items::<TypeSectionReader>(state, types, features, s, n).0.module == (ModuleView {
            types: module_items::<TypeSectionReader>(state, types, features, s, n).0.module.types,
            ..state.module
        }),
        module_items::<TypeSectionReader>(state, types, features, s, n).0.module.types.len()
            == state.module.types.len() + n,
        starts_with(
            module_items::<TypeSectionReader>(state, types, features, s, n).0.module.types,
            state.module.types,
        ),
        module_items::<TypeSectionReader>(state, types, features, s, n).1.len() == types.len() + n,
        starts_with(
            module_items::<TypeSectionReader>(state, types, features, s, n).1,
            types,
        ),
        ({
            let (after, more, _) = module_items::<TypeSectionReader>(state, types, features, s, n);
            let items = read::<TypeSectionReader>(s, n).0;
            let k = state.module.types.len();
            &&& forall|i: int|
                0 <= i < items.len() ==> defined(
                    after.module.types[k + i],
                    more,
                    types.len() + i,
                    #[trigger] items[i],
                )
            &&& forall|i: int|
                0 <= i < items.len() ==> good_type(features, #[trigger] items[i])
        }),
    decreases n,
{
    if n > 0 {
        let (c, r) = <TypeSectionReader as SectionReader>::parse_item(
            s.forbid_bulk_memory,
            s.cursor,
        );
        let item = r->Ok_0;
        let offset = s.cursor.offset();
        let (st, ts, _) = <TypeSectionReader as ModuleSection>::added(
            state,
            features,
            types,
            item,
            offset,
        );
        super::definition_laws::law_add_type(
            state.module,
            types,
            item->Func_0,
            features,
            offset,
        );
        lemma_types(st, ts, features, s.at(c), (n - 1) as nat);
        let later: Seq<TypeDefView> = read::<TypeSectionReader>(s.at(c), (n - 1) as nat).0;
        let items: Seq<TypeDefView> = read::<TypeSectionReader>(s, n).0;
        let (after, more, _) = module_items::<TypeSectionReader>(state, types, features, s, n);
        let behind = after.module;
        let k = state.module.types.len();
        assert(items =~= seq![item] + later);
        assert(st.module.types =~= state.module.types.push(types.len() as usize));
        assert forall|i: int| 0 <= i < k implies behind.types[i] == #[trigger] state.module.types[i] by {
            assert(st.module.types[i] == state.module.types[i]);
        }
        assert forall|i: int| 0 <= i < types.len() implies more[i] == #[trigger] types[i] by {
            assert(ts[i] == types[i]);
        }
        assert(ts[types.len() as int] == DefinedTypeView::Func(item->Func_0));
        assert(st.module.types[k as int] == types.len());
        assert forall|i: int| 0 <= i < items.len() implies defined(
            behind.types[k + i],
            more,
            types.len() + i,
            #[trigger] items[i],
        ) by {
            if i > 0 {
                assert(items[i] == later[i - 1]);
                assert(defined(
                    behind.types[st.module.types.len() + (i - 1)],
                    more,
                    ts.len() + (i - 1),
                    later[i - 1],
                ));
            } else {
                assert(more[types.len() as int] == ts[types.len() as int]);
                assert(behind.types[k as int] == st.module.types[k as int]);
            }
        }
        assert forall|i: int| 0 <= i < items.len() implies good_type(
            features,
            #[trigger] items[i],
        ) by {
            if i > 0 {
                assert(items[i] == later[i - 1]);
            }
        }
        assert(behind == (ModuleView { types: behind.types, ..st.module }));
        assert(st.module == (ModuleView { types: st.module.types, ..state.module }));
        assert(behind == (ModuleView { types: behind.types, ..state.module }));
        assert(items.len() == n);
        let end = read::<TypeSectionReader>(s, n).1;
        assert(end.pos >= end.bytes.len());
        assert(behind.types.len() == k + n);
        assert(more.len() == types.len() + n);
        assert(starts_with(behind.types, state.module.types));
        assert(starts_with(more, types));
    } else {
        assert(starts_with(types, types));
        assert(starts_with(state.module.types, state.module.types));
        assert(read::<TypeSectionReader>(s, n).0.len() == 0);
        assert(s.end() is Ok);
        assert(read::<TypeSectionReader>(s, n).1.pos >= s.cursor.bytes.len());
        assert(state.module == (ModuleView { types: state.module.types, ..state.module }));
    }
}

/// A start section names a function that is there, takes nothing and gives nothing, and changes
/// nothing of the module.
pub proof fn law_start_section(v: ValidatorView, func: u32, range: Range)
    requires
        v.wf(),
        v.state == State::Module,
    ensures
        ({
            let (w, result) = v.payload(PayloadView::StartSection { func, range });
            let m = v.module->0.module;
            let ty = v.types[m.types[m.functions[func as int] as int] as int]->Func_0;
            &&& result is Ok <==> {
                &&& v.module->0.order.place() < Order::Start.place()
                &&& func < m.functions.len()
                &&& ty.params.len() == 0
                &&& ty.returns.len() == 0
            }
            &&& result is Ok ==> w.module->0.module == m && w.types == v.types
        }),
{
    let m = v.module->0.module;
    if func < m.functions.len() {
        assert(m.functions[func as int] < m.types.len());
    }
}

/// The functions among imports, in order.
pub open spec fn functions_of(items: Seq<ImportView>) -> Seq<u32>
    decreases items.len(),
{
    if items.len() == 0 {
        Seq::empty()
    } else {
        (match items[0].ty {
            TypeRef::Func(index) => seq![index],
            _ => Seq::empty(),
        }) + functions_of(items.skip(1))
    }
}

/// The tables among imports, in order.
pub open spec fn tables_of(items: Seq<ImportView>) -> Seq<TableType>
    decreases items.len(),
{
    if items.len() == 0 {
        Seq::empty()
    } else {
        (match items[0].ty {
            TypeRef::Table(ty) => seq![ty],
            _ => Seq::empty(),
        }) + tables_of(items.skip(1))
    }
}

/// The memories among imports, in order.
pub open spec fn memories_of(items: Seq<ImportView>) -> Seq<MemoryType>
    decreases items.len(),
{
    if items.len() == 0 {
        Seq::empty()
    } else {
        (match items[0].ty {
            TypeRef::Memory(ty) => seq![ty],
            _ => Seq::empty(),
        }) + memories_of(items.skip(1))
    }
}

/// The globals among imports, in order.
pub open spec fn globals_of(items: Seq<ImportView>) -> Seq<GlobalType>
    decreases items.len(),
{
    if items.len() == 0 {
        Seq::empty()
    } else {
        (match items[0].ty {
            TypeRef::Global(ty) => seq![ty],
            _ => Seq::empty(),
        }) + globals_of(items.skip(1))
    }
}

/// The types of the tags among imports, in order, by their places in the list of all types.
pub open spec fn tags_of(items: Seq<ImportView>, types: Seq<usize>) -> Seq<usize>
    decreases items.len(),
{
    if items.len() == 0 {
        Seq::empty()
    } else {
        (match items[0].ty {
            TypeRef::Tag(ty) => seq![types[ty.func_type_idx as int]],
            _ => Seq::empty(),
        }) + tags_of(items.skip(1), types)
    }
}

/// An import is noted under its two names.
pub open spec fn noted(import: ModuleImportView, item: ImportView) -> bool {
    import.module == item.module && import.name == item.name
}

/// What is imported can be had by a module with these types.
pub open spec fn importable(
    places: Seq<usize>,
    types: Seq<DefinedTypeView>,
    features: WasmFeatures,
    item: ImportView,
) -> bool {
    exists|m: ModuleView| m.types == places && #[trigger] good_import(m, types, features, item.ty)
}

proof fn lemma_import_functions(
    state: ModuleStateView,
    types: Seq<DefinedTypeView>,
    features: WasmFeatures,
    s: SectionView,
    n: nat,
)
    requires
        module_items::<ImportSectionReader>(state, types, features, s, n).2 is Ok,
    ensures
        ({
            let before = state.module;
            let behind = module_items::<ImportSectionReader>(
                state,
                types,
                features,
                s,
                n,
            ).0.module;
            let items: Seq<ImportView> = read::<ImportSectionReader>(s, n).0;
            &&& items.len() == n
            &&& behind.types == before.types
            &&& behind.functions == before.functions + functions_of(items)
            &&& behind.num_imported_functions == before.num_imported_functions + functions_of(
                items,
            ).len()
        }),
    decreases n,
{
    let before = state.module;
    let items: Seq<ImportView> = read::<ImportSectionReader>(s, n).0;
    if n == 0 {
        assert(before.functions =~= before.functions + functions_of(items));
    } else {
        let (c, r) = <ImportSectionReader as SectionReader>::parse_item(
            s.forbid_bulk_memory,
            s.cursor,
        );
        let item: ImportView = r->Ok_0;
        let offset = s.cursor.offset();
        let (st, ts, _) = <ImportSectionReader as ModuleSection>::added(
            state,
            features,
            types,
            item,
            offset,
        );
        super::definition_laws::law_add_import(before, types, item, features, offset);
        let mid = st.module;
        lemma_import_functions(st, ts, features, s.at(c), (n - 1) as nat);
        let later: Seq<ImportView> = read::<ImportSectionReader>(s.at(c), (n - 1) as nat).0;
        let behind = module_items::<ImportSectionReader>(state, types, features, s, n).0.module;
        assert(items =~= seq![item] + later);
        assert(items.skip(1) =~= later);
        assert(behind.functions =~= before.functions + functions_of(items));
    }
}

proof fn lemma_import_tables(
    state: ModuleStateView,
    types: Seq<DefinedTypeView>,
    features: WasmFeatures,
    s: SectionView,
    n: nat,
)
    requires
        module_items::<ImportSectionReader>(state, types, features, s, n).2 is Ok,
    ensures
        ({
            let before = state.module;
            let behind = module_items::<ImportSectionReader>(
                state,
                types,
                features,
                s,
                n,
            ).0.module;
            let items: Seq<ImportView> = read::<ImportSectionReader>(s, n).0;
            &&& behind.tables == before.tables + tables_of(items)
            &&& behind.memories == before.memories + memories_of(items)
        }),
    decreases n,
{
    let before = state.module;
    let items: Seq<ImportView> = read::<ImportSectionReader>(s, n).0;
    if n == 0 {
        assert(before.tables =~= before.tables + tables_of(items));
        assert(before.memories =~= before.memories + memories_of(items));
    } else {
        let (c, r) = <ImportSectionReader as SectionReader>::parse_item(
            s.forbid_bulk_memory,
            s.cursor,
        );
        let item: ImportView = r->Ok_0;
        let offset = s.cursor.offset();
        let (st, ts, _) = <ImportSectionReader as ModuleSection>::added(
            state,
            features,
            types,
            item,
            offset,
        );
        super::definition_laws::law_add_import(before, types, item, features, offset);
        let mid = st.module;
        lemma_import_tables(st, ts, features, s.at(c), (n - 1) as nat);
        let later: Seq<ImportView> = read::<ImportSectionReader>(s.at(c), (n - 1) as nat).0;
        let behind = module_items::<ImportSectionReader>(state, types, features, s, n).0.module;
        assert(items =~= seq![item] + later);
        assert(items.skip(1) =~= later);
        assert(behind.tables =~= before.tables + tables_of(items));
        assert(behind.memories =~= before.memories + memories_of(items));
    }
}

proof fn lemma_import_globals(
    state: ModuleStateView,
    types: Seq<DefinedTypeView>,
    features: WasmFeatures,
    s: SectionView,
    n: nat,
)
    requires
        module_items::<ImportSectionReader>(state, types, features, s, n).2 is Ok,
    ensures
        ({
            let before = state.module;
            let behind = module_items::<ImportSectionReader>(
                state,
                types,
                features,
                s,
                n,
            ).0.module;
            let items: Seq<ImportView> = read::<ImportSectionReader>(s, n).0;
            &&& behind.types == before.types
            &&& behind.globals == before.globals + globals_of(items)
            &&& behind.num_imported_globals == before.num_imported_globals + globals_of(items).len()
            &&& behind.tags == before.tags + tags_of(items, before.types)
        }),
    decreases n,
{
    let before = state.module;
    let items: Seq<ImportView> = read::<ImportSectionReader>(s, n).0;
    if n == 0 {
        assert(before.globals =~= before.globals + globals_of(items));
        assert(before.tags =~= before.tags + tags_of(items, before.types));
    } else {
        let (c, r) = <ImportSectionReader as SectionReader>::parse_item(
            s.forbid_bulk_memory,
            s.cursor,
        );
        let item: ImportView = r->Ok_0;
        let offset = s.cursor.offset();
        let (st, ts, _) = <ImportSectionReader as ModuleSection>::added(
            state,
            features,
            types,
            item,
            offset,
        );
        super::definition_laws::law_add_import(before, types, item, features, offset);
        let mid = st.module;
        lemma_import_globals(st, ts, features, s.at(c), (n - 1) as nat);
        let later: Seq<ImportView> = read::<ImportSectionReader>(s.at(c), (n - 1) as nat).0;
        let behind = module_items::<ImportSectionReader>(state, types, features, s, n).0.module;
        assert(items =~= seq![item] + later);
        assert(items.skip(1) =~= later);
        assert(behind.globals =~= before.globals + globals_of(items));
        assert(behind.tags =~= before.tags + tags_of(items, before.types));
    }
}

proof fn lemma_import_names(
    state: ModuleStateView,
    types: Seq<DefinedTypeView>,
    features: WasmFeatures,
    s: SectionView,
    n: nat,
)
    requires
        module_items::<ImportSectionReader>(state, types, features, s, n).2 is Ok,
    ensures
        ({
            let before = state.module;
            let behind = module_items::<ImportSectionReader>(
                state,
                types,
                features,
                s,
                n,
            ).0.module;
            let items: Seq<ImportView> = read::<ImportSectionReader>(s, n).0;
            &&& items.len() == n
            &&& behind.imports.len() == before.imports.len() + n
            &&& starts_with(behind.imports, before.imports)
            &&& forall|i: int|
                0 <= i < n ==> noted(behind.imports[before.imports.len() + i], #[trigger] items[i])
        }),
    decreases n,
{
    let before = state.module;
    let items: Seq<ImportView> = read::<ImportSectionReader>(s, n).0;
    if n == 0 {
    } else {
        let (c, r) = <ImportSectionReader as SectionReader>::parse_item(
            s.forbid_bulk_memory,
            s.cursor,
        );
        let item: ImportView = r->Ok_0;
        let offset = s.cursor.offset();
        let (st, ts, _) = <ImportSectionReader as ModuleSection>::added(
            state,
            features,
            types,
            item,
            offset,
        );
        super::definition_laws::law_add_import(before, types, item, features, offset);
        let mid = st.module;
        lemma_import_names(st, ts, features, s.at(c), (n - 1) as nat);
        let later: Seq<ImportView> = read::<ImportSectionReader>(s.at(c), (n - 1) as nat).0;
        let behind = module_items::<ImportSectionReader>(state, types, features, s, n).0.module;
        assert(items =~= seq![item] + later);
        assert(items.skip(1) =~= later);
        let k = before.imports.len() as int;
        lemma_starts_with_both(behind.imports, mid.imports, before.imports);
        assert forall|i: int| 0 <= i < n implies noted(
            behind.imports[before.imports.len() + i],
            #[trigger] items[i],
        ) by {
            if i == 0 {
                assert(behind.imports[k] == mid.imports[k]);
            } else {
                assert(items[i] == later[i - 1]);
                assert(noted(behind.imports[mid.imports.len() + (i - 1)], later[i - 1]));
            }
        }
    }
}

proof fn lemma_import_types(
    state: ModuleStateView,
    types: Seq<DefinedTypeView>,
    features: WasmFeatures,
    s: SectionView,
    n: nat,
)
    requires
        module_items::<ImportSectionReader>(state, types, features, s, n).2 is Ok,
    ensures
        ({
            let before = state.module;
            let behind = module_items::<ImportSectionReader>(
                state,
                types,
                features,
                s,
                n,
            ).0.module;
            let items: Seq<ImportView> = read::<ImportSectionReader>(s, n).0;
            &&& items.len() == n
            &&& forall|i: int|
                0 <= i < n ==> importable(before.types, types, features, #[trigger] items[i])
        }),
    decreases n,
{
    let before = state.module;
    let items: Seq<ImportView> = read::<ImportSectionReader>(s, n).0;
    if n == 0 {
    } else {
        let (c, r) = <ImportSectionReader as SectionReader>::parse_item(
            s.forbid_bulk_memory,
            s.cursor,
        );
        let item: ImportView = r->Ok_0;
        let offset = s.cursor.offset();
        let (st, ts, _) = <ImportSectionReader as ModuleSection>::added(
            state,
            features,
            types,
            item,
            offset,
        );
        super::definition_laws::law_add_import(before, types, item, features, offset);
        let mid = st.module;
        lemma_import_types(st, ts, features, s.at(c), (n - 1) as nat);
        let later: Seq<ImportView> = read::<ImportSectionReader>(s.at(c), (n - 1) as nat).0;
        let behind = module_items::<ImportSectionReader>(state, types, features, s, n).0.module;
        assert(items =~= seq![item] + later);
        assert(items.skip(1) =~= later);
        assert forall|i: int| 0 <= i < n implies importable(
            before.types,
            types,
            features,
            #[trigger] items[i],
        ) by {
            if i == 0 {
                assert(good_import(before, types, features, items[i].ty));
            } else {
                assert(items[i] == later[i - 1]);
                assert(importable(mid.types, types, features, later[i - 1]));
            }
        }
    }
}

/// What an import section brings comes behind what there is, each thing behind those of its kind and
/// in order: functions, which are counted, tables, memories, globals, which are counted too, and
/// tags. Each import is noted under its two names, and is of a type that can be had.
pub proof fn law_import_section(v: ValidatorView, s: SectionView)
    requires
        accepted(v, SectionKind::Import, s),
    ensures
        ({
            let before = v.module->0.module;
            let behind = module_behind(v, SectionKind::Import, s);
            let items: Seq<ImportView> = read::<ImportSectionReader>(s, s.count as nat).0;
            &&& items.len() == s.count
            &&& behind.functions == before.functions + functions_of(items)
            &&& behind.num_imported_functions == before.num_imported_functions + functions_of(
                items,
            ).len()
            &&& behind.tables == before.tables + tables_of(items)
            &&& behind.memories == before.memories + memories_of(items)
            &&& behind.globals == before.globals + globals_of(items)
            &&& behind.num_imported_globals == before.num_imported_globals + globals_of(items).len()
            &&& behind.tags == before.tags + tags_of(items, before.types)
            &&& behind.imports.len() == before.imports.len() + s.count
            &&& forall|i: int|
                0 <= i < s.count ==> noted(
                    behind.imports[before.imports.len() + i],
                    #[trigger] items[i],
                )
            &&& forall|i: int|
                0 <= i < s.count ==> importable(
                    before.types,
                    v.types,
                    v.features,
                    #[trigger] items[i],
                )
        }),
{
    let state = ModuleStateView { order: Order::Import, ..v.module->0 };
    lemma_import_functions(state, v.types, v.features, s, s.count as nat);
    lemma_import_tables(state, v.types, v.features, s, s.count as nat);
    lemma_import_globals(state, v.types, v.features, s, s.count as nat);
    lemma_import_names(state, v.types, v.features, s, s.count as nat);
    lemma_import_types(state, v.types, v.features, s, s.count as nat);
}

/// The exports of an export section come behind those that there are, in order, under their names.
/// Each is of something that is there, and no name is exported twice.
pub proof fn law_export_section(v: ValidatorView, s: SectionView)
    requires
        accepted(v, SectionKind::Export, s),
        names_once(v.module->0.module.exports),
    ensures
        ({
            let before = v.module->0.module;
            let behind = module_behind(v, SectionKind::Export, s);
            let items: Seq<ExportView> = read::<ExportSectionReader>(s, s.count as nat).0;
            let end = read::<ExportSectionReader>(s, s.count as nat).1;
            &&& items.len() == s.count
            &&& end.pos >= end.bytes.len()
            &&& names_once(behind.exports)
            &&& forall|i: int|
                0 <= i < items.len() ==> exported(
                    before,
                    (#[trigger] items[i]).kind,
                    items[i].index,
                ) is Some
            &&& behind == (ModuleView {
                exports: before.exports + Seq::new(
                    items.len(),
                    |i: int|
                        (items[i].name, exported(before, items[i].kind, items[i].index)->0),
                ),
                function_references: behind.function_references,
                ..before
            })
            &&& before.exports.len() + s.count <= 100_000
        }),
{
    let before = v.module->0.module;
    let state = ModuleStateView { order: Order::Export, ..v.module->0 };
    let inv = |m: ModuleView, ts: Seq<DefinedTypeView>|
        m == (ModuleView {
            exports: m.exports,
            function_references: m.function_references,
            ..before
        }) && names_once(m.exports);
    let good = |e: ExportView| exported(before, e.kind, e.index) is Some;
    let field = |m: ModuleView, ts: Seq<DefinedTypeView>| m.exports;
    let value = |e: ExportView| (e.name, exported(before, e.kind, e.index)->0);
    assert(puts::<ExportSectionReader, (Seq<char>, EntityType)>(
        v.features,
        inv,
        good,
        field,
        value,
    )) by {
        assert forall|
            st: ModuleStateView,
            ts: Seq<DefinedTypeView>,
            item: ExportView,
            offset: int,
        |
            inv(st.module, ts) && (#[trigger] <ExportSectionReader as ModuleSection>::added(
                st,
                v.features,
                ts,
                item,
                offset,
            )).2 is Ok implies {
            let (after, more, _) = <ExportSectionReader as ModuleSection>::added(
                st,
                v.features,
                ts,
                item,
                offset,
            );
            &&& good(item)
            &&& inv(after.module, more)
            &&& field(after.module, more) == field(st.module, ts).push(value(item))
        } by {
            super::definition_laws::law_add_export(st.module, item, v.features, offset);
        }
    }
    lemma_put::<ExportSectionReader, (Seq<char>, EntityType)>(
        state,
        v.types,
        v.features,
        s,
        s.count as nat,
        inv,
        good,
        field,
        value,
    );
    let items: Seq<ExportView> = read::<ExportSectionReader>(s, s.count as nat).0;
    assert(items.map_values(value) =~= Seq::new(
        items.len(),
        |i: int| (items[i].name, exported(before, items[i].kind, items[i].index)->0),
    ));
    assert forall|i: int| 0 <= i < items.len() implies exported(
        before,
        (#[trigger] items[i]).kind,
        items[i].index,
    ) is Some by {
        assert(good(items[i]));
    }
}

/// The data segment can be had: if it is active it goes to a memory that is there, to an address of
/// its type.
pub open spec fn good_data(m: ModuleView, features: WasmFeatures, data: DataView) -> bool {
    data.kind matches DataKindView::Active { memory_index, init_expr } ==> {
        &&& memory_index < m.memories.len()
        &&& m.const_expr(
            fresh(),
            init_expr,
            if m.memories[memory_index as int].memory64 {
                Type::I64
            } else {
                Type::I32
            },
            features,
        ) is Ok
    }
}

proof fn lemma_data(
    state: ModuleStateView,
    types: Seq<DefinedTypeView>,
    features: WasmFeatures,
    s: SectionView,
    n: nat,
)
    requires
        module_items::<DataSectionReader>(state, types, features, s, n).2 is Ok,
    ensures
        read::<DataSectionReader>(s, n).0.len() == n,
        read::<DataSectionReader>(s, n).1.pos >= read::<DataSectionReader>(s, n).1.bytes.len(),
        module_items::<DataSectionReader>(state, types, features, s, n).0 == state,
        forall|i: int|
            0 <= i < n ==> good_data(
                state.module,
                features,
                #[trigger] read::<DataSectionReader>(s, n).0[i],
            ),
    decreases n,
{
    if n > 0 {
        let (c, r) = <DataSectionReader as SectionReader>::parse_item(
            s.forbid_bulk_memory,
            s.cursor,
        );
        let item: DataView = r->Ok_0;
        super::definition_laws::law_data_segment(
            state.module,
            item,
            features,
            s.cursor.offset(),
        );
        lemma_data(state, types, features, s.at(c), (n - 1) as nat);
        let later = read::<DataSectionReader>(s.at(c), (n - 1) as nat).0;
        let items = read::<DataSectionReader>(s, n).0;
        assert(items =~= seq![item] + later);
        assert forall|i: int| 0 <= i < n implies good_data(
            state.module,
            features,
            #[trigger] items[i],
        ) by {
            if i > 0 {
                assert(items[i] == later[i - 1]);
            }
        }
    }
}

/// The segments of a data section can be had, and change nothing of the module.
pub proof fn law_data_section(v: ValidatorView, s: SectionView)
    requires
        accepted(v, SectionKind::Data, s),
    ensures
        ({
            let before = v.module->0.module;
            let t = SectionView { forbid_bulk_memory: !v.features.bulk_memory, ..s };
            let (items, end) = read::<DataSectionReader>(t, s.count as nat);
            &&& items.len() == s.count
            &&& end.pos >= end.bytes.len()
            &&& module_behind(v, SectionKind::Data, s) == before
            &&& forall|i: int|
                0 <= i < items.len() ==> good_data(before, v.features, #[trigger] items[i])
            &&& s.count <= 100_000
        }),
{
    let state = ModuleStateView {
        order: Order::Data,
        data_segment_count: s.count,
        ..v.module->0
    };
    let t = SectionView { forbid_bulk_memory: !v.features.bulk_memory, ..s };
    lemma_data(state, v.types, v.features, t, s.count as nat);
}

/// All that a module has defined is still there, in its place, and there may be more.
pub open spec fn grows(m: ModuleView, n: ModuleView) -> bool {
    &&& starts_with(n.types, m.types)
    &&& starts_with(n.functions, m.functions)
    &&& starts_with(n.tables, m.tables)
    &&& starts_with(n.memories, m.memories)
    &&& starts_with(n.globals, m.globals)
    &&& starts_with(n.tags, m.tags)
    &&& starts_with(n.element_types, m.element_types)
    &&& starts_with(n.imports, m.imports)
    &&& starts_with(n.exports, m.exports)
    &&& m.num_imported_functions <= n.num_imported_functions
    &&& m.num_imported_globals <= n.num_imported_globals
    &&& m.function_references.subset_of(n.function_references)
}

/// What grows from a module that grows from another grows from that one.
pub proof fn lemma_grows_on(m: ModuleView, n: ModuleView, o: ModuleView)
    requires
        grows(m, n),
        grows(n, o),
    ensures
        grows(m, o),
{
    lemma_starts_with_both(o.types, n.types, m.types);
    lemma_starts_with_both(o.functions, n.functions, m.functions);
    lemma_starts_with_both(o.tables, n.tables, m.tables);
    lemma_starts_with_both(o.memories, n.memories, m.memories);
    lemma_starts_with_both(o.globals, n.globals, m.globals);
    lemma_starts_with_both(o.tags, n.tags, m.tags);
    lemma_starts_with_both(o.element_types, n.element_types, m.element_types);
    lemma_starts_with_both(o.imports, n.imports, m.imports);
    lemma_starts_with_both(o.exports, n.exports, m.exports);
}

/// An item of a section leaves all that there is.
pub open spec fn item_grows<T: ModuleSection>(features: WasmFeatures) -> bool {
    forall|st: ModuleStateView, ts: Seq<DefinedTypeView>, item: <T::Item as View>::V, offset: int|
        grows(st.module, (#[trigger] T::added(st, features, ts, item, offset)).0.module)
}

proof fn lemma_items_grow<T: ModuleSection>(
    state: ModuleStateView,
    types: Seq<DefinedTypeView>,
    features: WasmFeatures,
    section: SectionView,
    n: nat,
)
    requires
        item_grows::<T>(features),
    ensures
        grows(state.module, module_items::<T>(state, types, features, section, n).0.module),
    decreases n,
{
    if n > 0 {
        if let (c, Ok(item)) = T::parse_item(section.forbid_bulk_memory, section.cursor) {
            let offset = section.cursor.offset();
            let (st, ts, r) = T::added(state, features, types, item, offset);
            if r is Ok {
                lemma_items_grow::<T>(st, ts, features, section.at(c), (n - 1) as nat);
                lemma_grows_on(
                    state.module,
                    st.module,
                    module_items::<T>(st, ts, features, section.at(c), (n - 1) as nat).0.module,
                );
            }
        }
    }
}

proof fn lemma_section_grows<T: ModuleSection>(v: ValidatorView, s: SectionView)
    requires
        v.state == State::Module,
        v.module is Some,
        item_grows::<T>(v.features),
        forall|st: ModuleStateView, count: u32, offset: int|
            (#[trigger] T::counted(st, v.features, count, offset)).0.module == st.module,
    ensures
        v.module_section::<T>(s).0.module is Some,
        grows(v.module->0.module, v.module_section::<T>(s).0.module->0.module),
{
    let offset = s.cursor.base;
    if let (st, Ok(_)) = v.module->0.update_order(T::order_of(), offset) {
        if let (st, Ok(_)) = T::counted(st, v.features, s.count, offset) {
            lemma_items_grow::<T>(st, v.types, v.features, s, s.count as nat);
        }
    }
}

proof fn lemma_element_grows(features: WasmFeatures)
    ensures
        item_grows::<ElementSectionReader>(features),
{
    assert forall|st: ModuleStateView, ts: Seq<DefinedTypeView>, item: ElementView, offset: int|
        grows(
            st.module,
            (#[trigger] <ElementSectionReader as ModuleSection>::added(
                st,
                features,
                ts,
                item,
                offset,
            )).0.module,
        ) by {
        st.module.lemma_element_keeps(item, features, offset);
        lemma_element_references(st.module, item, features, offset);
        if let Ok(refs) = st.module.element_kind(item, features, offset) {
            st.module.refer(refs).lemma_keeps_types(item, features, offset);
        }
    }
}

proof fn lemma_element_references(
    m: ModuleView,
    item: ElementView,
    features: WasmFeatures,
    offset: int,
)
    ensures
        m.function_references.subset_of(
            m.add_element_segment(item, features, offset).0.function_references,
        ),
{
    if let Ok(refs) = m.element_kind(item, features, offset) {
        let next = m.refer(refs);
        match item.items {
            ElementItemsView::Functions(list) => lemma_functions_refer(next, list, 0, item.ty),
            ElementItemsView::Expressions(list) => lemma_expressions_refer(
                next,
                list,
                0,
                item.ty,
                features,
            ),
        }
    }
}

proof fn lemma_functions_refer(m: ModuleView, list: Seq<PlacedView<u32>>, i: int, ty: Type)
    ensures
        m.function_references.subset_of(m.element_functions(list, i, ty).0.function_references),
    decreases list.len() - i,
{
    if 0 <= i < list.len() {
        let next = ModuleView {
            function_references: m.function_references.insert(list[i].item),
            ..m
        };
        lemma_functions_refer(next, list, i + 1, ty);
    }
}

proof fn lemma_expressions_refer(
    m: ModuleView,
    list: Seq<PlacedView<Cursor>>,
    i: int,
    ty: Type,
    features: WasmFeatures,
)
    ensures
        m.function_references.subset_of(
            m.element_expressions(list, i, ty, features).0.function_references,
        ),
    decreases list.len() - i,
{
    if 0 <= i < list.len() {
        if let Ok(refs) = m.init_expr(list[i].item, ty, features) {
            lemma_expressions_refer(m.refer(refs), list, i + 1, ty, features);
        }
    }
}

#[verifier::rlimit(40)]
proof fn lemma_kind_grows(v: ValidatorView, kind: SectionKind, s: SectionView)
    requires
        v.state == State::Module,
        v.module is Some,
    ensures
        v.section(kind, s).0.module is Some,
        grows(v.module->0.module, v.section(kind, s).0.module->0.module),
{
    match kind {
        SectionKind::Type => lemma_section_grows::<TypeSectionReader>(v, s),
        SectionKind::Import => lemma_section_grows::<ImportSectionReader>(v, s),
        SectionKind::Function => lemma_section_grows::<FunctionSectionReader>(v, s),
        SectionKind::Table => lemma_section_grows::<TableSectionReader>(v, s),
        SectionKind::Memory => lemma_section_grows::<MemorySectionReader>(v, s),
        SectionKind::Tag => lemma_section_grows::<TagSectionReader>(v, s),
        SectionKind::Global => lemma_section_grows::<GlobalSectionReader>(v, s),
        SectionKind::Export => lemma_section_grows::<ExportSectionReader>(v, s),
        SectionKind::Element => {
            lemma_element_grows(v.features);
            lemma_section_grows::<ElementSectionReader>(v, s);
        },
        SectionKind::Data => lemma_section_grows::<DataSectionReader>(
            v,
            SectionView { forbid_bulk_memory: !v.features.bulk_memory, ..s },
        ),
        _ => {},
    }
}

/// Whatever is passed to a validator in a module, but for the end, all that the module has defined,
/// imported and exported stays in its place, whether or not the part is accepted.
pub proof fn law_definitions_stay(v: ValidatorView, part: PayloadView)
    requires
        v.module is Some,
        v.state == State::Module,
        part !is End,
    ensures
        v.payload(part).0.module is Some,
        v.payload(part).0.state == State::Module,
        grows(v.module->0.module, v.payload(part).0.module->0.module),
        starts_with(v.payload(part).0.types, v.types),
{
    match part {
        PayloadView::Section(kind, s) => {
            lemma_kind_grows(v, kind, s);
            law_section_keeps_state(v, kind, s);
        },
        PayloadView::DataCountSection { count, range } => {
            assert(v.payload(part).0 == v.data_count_section(count, range).0);
        },
        PayloadView::StartSection { func, range } => {
            assert(v.payload(part).0 == v.start_section(func, range).0);
        },
        PayloadView::CodeSectionStart { count, range, .. } => {
            assert(v.payload(part).0 == v.code_section_start(count, range).0);
        },
        PayloadView::CodeSectionEntry(body) => {
            assert(v.payload(part).0 == v.code_section_entry(body.base).0);
        },
        _ => {},
    }
}

} // verus!
