//! What holds of every validator, whatever is passed to it.

use super::component::ComponentView;
use super::component_instances::around;
use super::component_sections::ComponentSection;
use super::features::WasmFeatures;
use super::module::Order;
use super::module_sections::ModuleSection;
use super::module_state::ModuleStateView;
use super::types::{lemma_starts_with_both, starts_with, DefinedTypeView};
use super::{component_items, max_check, module_items, State, ValidPayloadView, ValidatorView};
use crate::error::Result;
use crate::parser::{Encoding, ParseView, PayloadView, SectionKind};
use crate::reader::component::exports::ComponentExportSectionReader;
use crate::reader::sections::{
    AliasSectionReader, ComponentFunctionSectionReader, ComponentImportSectionReader,
    ComponentTypeSectionReader, DataSectionReader, ElementSectionReader, ExportSectionReader,
    FunctionSectionReader, GlobalSectionReader, ImportSectionReader, InstanceSectionReader,
    MemorySectionReader, SectionView, TableSectionReader, TagSectionReader, TypeSectionReader,
};
use vstd::prelude::*;

verus! {

/// The place among the others of a section of a module with items.
pub open spec fn order_of_kind(kind: SectionKind) -> Option<Order> {
    match kind {
        SectionKind::Type => Some(Order::Type),
        SectionKind::Import => Some(Order::Import),
        SectionKind::Function => Some(Order::Function),
        SectionKind::Table => Some(Order::Table),
        SectionKind::Memory => Some(Order::Memory),
        SectionKind::Tag => Some(Order::Tag),
        SectionKind::Global => Some(Order::Global),
        SectionKind::Export => Some(Order::Export),
        SectionKind::Element => Some(Order::Element),
        SectionKind::Data => Some(Order::Data),
        _ => None,
    }
}

/// The place among the others of a section of a module.
pub open spec fn order_of_part(part: PayloadView) -> Option<Order> {
    match part {
        PayloadView::Section(kind, _) => order_of_kind(kind),
        PayloadView::StartSection { .. } => Some(Order::Start),
        PayloadView::DataCountSection { .. } => Some(Order::DataCount),
        PayloadView::CodeSectionStart { .. } => Some(Order::Code),
        _ => None,
    }
}

/// The part can only stand in a module.
pub open spec fn for_module(part: PayloadView) -> bool {
    order_of_part(part) is Some || part is CodeSectionEntry
}

/// The part can only stand in a component.
pub open spec fn for_component(part: PayloadView) -> bool {
    match part {
        PayloadView::Section(kind, _) => order_of_kind(kind) is None,
        PayloadView::ModuleSection { .. } => true,
        PayloadView::ComponentSection { .. } => true,
        PayloadView::ComponentStartSection(_) => true,
        _ => false,
    }
}

/// A section of a module is refused before the header of a module, in a component and after
/// the end, and changes nothing then.
pub proof fn law_module_part_needs_module(v: ValidatorView, part: PayloadView)
    requires
        for_module(part),
        v.state != State::Module,
    ensures
        v.payload(part).0 == v,
        v.payload(part).1 is Err,
{
}

/// A section of a component is refused before the header of a component, in a module and
/// after the end, and changes nothing then.
pub proof fn law_component_part_needs_component(v: ValidatorView, part: PayloadView)
    requires
        for_component(part),
        v.state != State::Component,
    ensures
        v.payload(part).0 == v,
        v.payload(part).1 is Err,
{
}

/// There is one header, and where something is expected in a component it is a header of
/// that.
pub proof fn law_header_once(v: ValidatorView, part: PayloadView)
    requires
        part is Version,
    ensures
        v.payload(part).1 is Ok ==> v.state is Unparsed && v.payload(part).0.state !is Unparsed,
        v.payload(part).1 is Err ==> v.payload(part).0 == v,
        v.state matches State::Unparsed(Some(expected)) ==> part->encoding != expected
            ==> v.payload(part).1 is Err,
{
}

/// After the end nothing is accepted but custom sections.
pub proof fn law_end_is_final(v: ValidatorView, part: PayloadView)
    requires
        v.state == State::End,
        part !is CustomSection,
    ensures
        v.payload(part).0 == v,
        v.payload(part).1 is Err,
{
}

/// A custom section is accepted anywhere, and changes nothing.
pub proof fn law_custom_sections_are_free(v: ValidatorView, part: PayloadView)
    requires
        part is CustomSection,
    ensures
        v.payload(part) == (v, Result::<ValidPayloadView>::Ok(ValidPayloadView::Valid)),
{
}

/// A section that is not known is refused everywhere, and changes nothing.
pub proof fn law_unknown_sections_are_refused(v: ValidatorView, part: PayloadView)
    requires
        part is UnknownSection,
    ensures
        v.payload(part).0 == v,
        v.payload(part).1 is Err,
{
}

/// A limit is kept exactly if there are not more things than there can be.
pub proof fn law_limit(cur_len: int, amt_added: int, max: usize, desc: &'static str, offset: int)
    ensures
        max_check(cur_len, amt_added, max, desc, offset) is Ok <==> cur_len + amt_added <= max,
{
}

proof fn lemma_module_items<T: ModuleSection>(
    state: ModuleStateView,
    types: Seq<DefinedTypeView>,
    features: WasmFeatures,
    section: SectionView,
    n: nat,
)
    ensures
        ({
            let (after, more, _) = module_items::<T>(state, types, features, section, n);
            after == state.with(after.module) && starts_with(more, types)
        }),
    decreases n,
{
    if n > 0 {
        if let (c, Ok(item)) = T::parse_item(section.forbid_bulk_memory, section.cursor) {
            let offset = section.cursor.offset();
            T::item_keeps(state, features, types, item, offset);
            if let (s, t, Ok(_)) = T::added(state, features, types, item, offset) {
                lemma_module_items::<T>(s, t, features, section.at(c), (n - 1) as nat);
                lemma_starts_with_both(
                    module_items::<T>(s, t, features, section.at(c), (n - 1) as nat).1,
                    t,
                    types,
                );
            }
        }
    }
}

proof fn lemma_component_items<T: ComponentSection>(
    outer: Seq<ComponentView>,
    current: ComponentView,
    types: Seq<DefinedTypeView>,
    features: WasmFeatures,
    section: SectionView,
    n: nat,
)
    ensures
        starts_with(component_items::<T>(outer, current, types, features, section, n).1, types),
    decreases n,
{
    if n > 0 {
        if let (d, Ok(item)) = T::parse_item(section.forbid_bulk_memory, section.cursor) {
            let offset = section.cursor.offset();
            T::item_keeps(outer, current, types, features, item, offset);
            if let (c, t, Ok(_)) = T::added(outer, current, types, features, item, offset) {
                lemma_component_items::<T>(outer, c, t, features, section.at(d), (n - 1) as nat);
                lemma_starts_with_both(
                    component_items::<T>(
                        outer,
                        c,
                        t,
                        features,
                        section.at(d),
                        (n - 1) as nat,
                    ).1,
                    t,
                    types,
                );
            }
        }
    }
}

proof fn lemma_module_section<T: ModuleSection>(v: ValidatorView, section: SectionView)
    ensures
        ({
            let (w, result) = v.module_section::<T>(section);
            &&& w.features == v.features
            &&& starts_with(w.types, v.types)
            &&& w.components == v.components
            &&& w.state == v.state
            &&& v.state == State::Module && v.module is Some ==> {
                &&& w.module is Some
                &&& v.module->0.order.place() < T::order_of().place() ==> w.module->0.order
                    == T::order_of()
                &&& v.module->0.order.place() >= T::order_of().place() ==> result is Err
            }
        }),
{
    if v.state == State::Module {
        let offset = section.cursor.base;
        if let (state, Ok(_)) = v.module->0.update_order(T::order_of(), offset) {
            T::count_keeps(state, v.features, section.count, offset);
            if let (state, Ok(_)) = T::counted(state, v.features, section.count, offset) {
                lemma_module_items::<T>(
                    state,
                    v.types,
                    v.features,
                    section,
                    section.count as nat,
                );
            }
        }
    }
}

proof fn lemma_component_section<T: ComponentSection>(v: ValidatorView, section: SectionView)
    requires
        v.state == State::Component ==> v.components.len() > 0,
    ensures
        ({
            let (w, result) = v.component_section::<T>(section);
            &&& w.features == v.features
            &&& starts_with(w.types, v.types)
            &&& w.components.len() == v.components.len()
            &&& w.state == v.state
            &&& w.module == v.module
        }),
{
    lemma_component_items::<T>(
        around(v.components),
        v.components.last(),
        v.types,
        v.features,
        section,
        section.count as nat,
    );
}

proof fn lemma_section(v: ValidatorView, kind: SectionKind, s: SectionView)
    requires
        v.state == State::Component ==> v.components.len() > 0,
        v.state == State::Module ==> v.module is Some,
    ensures
        ({
            let (w, result) = v.section(kind, s);
            &&& w.features == v.features
            &&& starts_with(w.types, v.types)
            &&& w.components.len() == v.components.len()
            &&& w.state == v.state
            &&& order_of_kind(kind) matches Some(order) ==> v.state == State::Module ==> {
                &&& w.module is Some
                &&& v.module->0.order.place() >= order.place() ==> result is Err
                &&& result is Ok ==> w.module->0.order == order
            }
        }),
{
    match kind {
        SectionKind::Type => lemma_module_section::<TypeSectionReader>(v, s),
        SectionKind::Import => lemma_module_section::<ImportSectionReader>(v, s),
        SectionKind::Function => lemma_module_section::<FunctionSectionReader>(v, s),
        SectionKind::Table => lemma_module_section::<TableSectionReader>(v, s),
        SectionKind::Memory => lemma_module_section::<MemorySectionReader>(v, s),
        SectionKind::Tag => lemma_module_section::<TagSectionReader>(v, s),
        SectionKind::Global => lemma_module_section::<GlobalSectionReader>(v, s),
        SectionKind::Export => lemma_module_section::<ExportSectionReader>(v, s),
        SectionKind::Element => lemma_module_section::<ElementSectionReader>(v, s),
        SectionKind::Data => lemma_module_section::<DataSectionReader>(
            v,
            SectionView { forbid_bulk_memory: !v.features.bulk_memory, ..s },
        ),
        SectionKind::ComponentType => lemma_component_section::<ComponentTypeSectionReader>(v, s),
        SectionKind::ComponentImport => lemma_component_section::<
            ComponentImportSectionReader,
        >(v, s),
        SectionKind::ComponentFunction => lemma_component_section::<
            ComponentFunctionSectionReader,
        >(v, s),
        SectionKind::Instance => lemma_component_section::<InstanceSectionReader>(v, s),
        SectionKind::ComponentExport => lemma_component_section::<
            ComponentExportSectionReader,
        >(v, s),
        SectionKind::Alias => lemma_component_section::<AliasSectionReader>(v, s),
    }
}

/// A section with items changes neither what is expected nor how many components there are.
pub proof fn law_section_keeps_state(v: ValidatorView, kind: SectionKind, s: SectionView)
    requires
        v.state == State::Component ==> v.components.len() > 0,
        v.state == State::Module ==> v.module is Some,
    ensures
        v.section(kind, s).0.state == v.state,
        v.section(kind, s).0.components.len() == v.components.len(),
        starts_with(v.section(kind, s).0.types, v.types),
{
    lemma_section(v, kind, s);
}

/// Whatever is passed to a validator, its features stay as they are, and the types that it
/// knows stay where they are.
pub proof fn law_types_stay(v: ValidatorView, part: PayloadView)
    requires
        v.wf(),
    ensures
        v.payload(part).0.features == v.features,
        starts_with(v.payload(part).0.types, v.types),
{
    if let PayloadView::Section(kind, section) = part {
        lemma_section(v, kind, section);
    }
}

/// The sections of a module come in order, each at most once: one is refused if it does not
/// stand behind the last one, and if it is accepted it is the last one.
pub proof fn law_sections_in_order(v: ValidatorView, part: PayloadView)
    requires
        v.wf(),
        v.state == State::Module,
        order_of_part(part) is Some,
    ensures
        ({
            let order = order_of_part(part)->0;
            let (w, result) = v.payload(part);
            &&& v.module->0.order.place() >= order.place() ==> result is Err
            &&& result is Ok ==> w.state == State::Module && w.module->0.order == order
        }),
{
    if let PayloadView::Section(kind, section) = part {
        lemma_section(v, kind, section);
    }
}

/// Without the component model a validator never gets into a component, and accepts neither
/// the header of one nor a section of one.
pub proof fn law_components_need_feature(v: ValidatorView, part: PayloadView)
    requires
        v.wf(),
        !v.features.component_model,
        v.components.len() == 0,
    ensures
        v.payload(part).0.components.len() == 0,
        v.payload(part).0.state != State::Component,
        for_component(part) ==> v.payload(part).1 is Err,
        part matches PayloadView::Version { encoding: Encoding::Component, .. } ==> v.payload(
            part,
        ).1 is Err,
{
    if let PayloadView::Section(kind, section) = part {
        lemma_section(v, kind, section);
    }
}

/// The end of a nested component brings the validator back to the component around it, which
/// has one component more. At the end of the outermost component everything is over.
pub proof fn law_component_end(v: ValidatorView, offset: int)
    requires
        v.wf(),
        v.state == State::Component,
    ensures
        ({
            let (w, result) = v.end(offset);
            &&& result is Ok
            &&& w.components.len() == v.components.len() - 1
            &&& v.components.len() == 1 ==> w.state == State::End
            &&& v.components.len() > 1 ==> {
                let outer = v.components[v.components.len() - 2];
                &&& w.state == State::Component
                &&& w.components.last().components.len() == outer.components.len() + 1
                &&& around(w.components) == around(around(v.components))
            }
        }),
{
}

/// The end of a nested module, if it is valid, brings the validator back to the component around
/// it, which has one module more. At the end of a module on its own everything is over, and it is
/// valid exactly if its counts agree.
pub proof fn law_module_end(v: ValidatorView, offset: int)
    requires
        v.wf(),
        v.state == State::Module,
    ensures
        ({
            let (w, result) = v.end(offset);
            &&& w.module is None
            &&& w.components.len() == v.components.len()
            &&& v.components.len() == 0 ==> {
                &&& w.state == State::End
                &&& result is Ok <==> v.module->0.validate_end(offset) is Ok
            }
            &&& v.components.len() > 0 && result is Ok ==> {
                &&& w.state == State::Component
                &&& w.components.last().modules.len() == v.components.last().modules.len() + 1
                &&& around(w.components) == around(v.components)
            }
        }),
{
}

proof fn lemma_expected<T: ModuleSection>(v: ValidatorView, section: SectionView)
    requires
        v.state == State::Module,
        v.module is Some,
    ensures
        ({
            let (w, result) = v.module_section::<T>(section);
            let offset = section.cursor.base;
            let state = v.module->0.update_order(T::order_of(), offset).0;
            let counted = T::counted(state, v.features, section.count, offset).0;
            &&& w.module is Some
            &&& w.module->0.expected_code_bodies == v.module->0.expected_code_bodies
                || w.module->0.expected_code_bodies == counted.expected_code_bodies
            &&& result is Ok ==> w.module->0.expected_code_bodies == counted.expected_code_bodies
            &&& w.module->0.data_segment_count == v.module->0.data_segment_count
                || w.module->0.data_segment_count == counted.data_segment_count
            &&& result is Ok ==> w.module->0.data_segment_count == counted.data_segment_count
        }),
{
    let offset = section.cursor.base;
    if let (state, Ok(_)) = v.module->0.update_order(T::order_of(), offset) {
        if let (state, Ok(_)) = T::counted(state, v.features, section.count, offset) {
            lemma_module_items::<T>(state, v.types, v.features, section, section.count as nat);
        }
    }
}

/// A function section says how many bodies have to come, and a data section how many data
/// segments there are.
pub proof fn law_counts_are_kept(v: ValidatorView, s: SectionView)
    requires
        v.wf(),
        v.state == State::Module,
    ensures
        ({
            let (w, result) = v.payload(PayloadView::Section(SectionKind::Function, s));
            result is Ok ==> w.module->0.expected_code_bodies == Some(s.count)
        }),
        ({
            let (w, result) = v.payload(PayloadView::Section(SectionKind::Data, s));
            result is Ok ==> w.module->0.data_segment_count == s.count
        }),
{
    lemma_expected::<FunctionSectionReader>(v, s);
    lemma_expected::<DataSectionReader>(
        v,
        SectionView { forbid_bulk_memory: !v.features.bulk_memory, ..s },
    );
}

proof fn lemma_bodies_section(v: ValidatorView, kind: SectionKind, s: SectionView)
    requires
        v.wf(),
        v.state == State::Module,
        kind != SectionKind::Function,
    ensures
        v.section(kind, s).0.module is Some,
        v.section(kind, s).0.module->0.expected_code_bodies == v.module->0.expected_code_bodies,
{
    match kind {
        SectionKind::Type => lemma_expected::<TypeSectionReader>(v, s),
        SectionKind::Import => lemma_expected::<ImportSectionReader>(v, s),
        SectionKind::Table => lemma_expected::<TableSectionReader>(v, s),
        SectionKind::Memory => lemma_expected::<MemorySectionReader>(v, s),
        SectionKind::Tag => lemma_expected::<TagSectionReader>(v, s),
        SectionKind::Global => lemma_expected::<GlobalSectionReader>(v, s),
        SectionKind::Export => lemma_expected::<ExportSectionReader>(v, s),
        SectionKind::Element => lemma_expected::<ElementSectionReader>(v, s),
        SectionKind::Data => lemma_expected::<DataSectionReader>(
            v,
            SectionView { forbid_bulk_memory: !v.features.bulk_memory, ..s },
        ),
        _ => {},
    }
}

/// How many bodies have to come is changed by the function section and the code section alone.
pub proof fn law_bodies_are_awaited(v: ValidatorView, part: PayloadView)
    requires
        v.wf(),
        v.state == State::Module,
        part !is CodeSectionStart,
        part !is End,
        part matches PayloadView::Section(kind, _) ==> kind != SectionKind::Function,
    ensures
        v.payload(part).0.module is Some,
        v.payload(part).0.module->0.expected_code_bodies == v.module->0.expected_code_bodies,
{
    match part {
        PayloadView::Section(kind, s) => lemma_bodies_section(v, kind, s),
        PayloadView::DataCountSection { count, range } => {
            assert(v.payload(part).0 == v.data_count_section(count, range).0);
        },
        PayloadView::StartSection { func, range } => {
            assert(v.payload(part).0 == v.start_section(func, range).0);
        },
        PayloadView::CodeSectionEntry(body) => {
            assert(v.payload(part).0 == v.code_section_entry(body.base).0);
        },
        _ => {},
    }
}

/// There are as many bodies as functions: a code section has as many as the function section
/// said, and a module without a code section has no functions to come. There are as many data
/// segments as the data count section said.
pub proof fn law_counts_agree(v: ValidatorView, part: PayloadView, offset: int)
    requires
        v.wf(),
        v.state == State::Module,
        part is CodeSectionStart,
    ensures
        v.payload(part).1 is Ok ==> {
            &&& match v.module->0.expected_code_bodies {
                Some(n) => n == part->CodeSectionStart_count,
                None => part->CodeSectionStart_count == 0,
            }
            &&& v.payload(part).0.module->0.expected_code_bodies is None
        },
        v.end(offset).1 is Ok ==> {
            &&& v.module->0.expected_code_bodies matches Some(n) ==> n == 0
            &&& v.module->0.module.data_count matches Some(n) ==> n
                == v.module->0.data_segment_count
        },
{
}

/// A validator and what goes through the parts of a binary are at the same place: a header is
/// expected where one comes, there are as many components as the parts are nested in, and once
/// nothing more comes everything is over.
pub open spec fn in_step(v: ValidatorView, parts: ParseView) -> bool {
    let depth = parts.stack.len();
    if parts.done {
        v.state == State::End && v.components.len() == 0
    } else {
        match v.state {
            State::Unparsed(_) => parts.current.state is Header && v.components.len() == depth,
            State::Module => parts.current.state !is Header && v.components.len() == depth,
            State::Component => parts.current.state !is Header && v.components.len() == depth + 1,
            State::End => false,
        }
    }
}

/// A validator to which all parts of a binary are passed stays at their place, and what it gives
/// at the end of the outermost module or component are all the types that it knows.
pub proof fn law_stays_in_step(v: ValidatorView, parts: ParseView)
    requires
        v.wf(),
        parts.wf(),
        in_step(v, parts),
    ensures
        parts.step() matches (rest, Some(Ok(part))) ==> {
            v.payload(part) matches (w, Ok(valid)) ==> {
                &&& in_step(w, rest)
                &&& rest.done ==> (valid matches ValidPayloadView::End(types) && types.types
                    == w.types)
            }
        },
{
    parts.current.lemma_states(parts.window());
    if let (rest, Some(Ok(part))) = parts.step() {
        match part {
            PayloadView::Section(kind, section) => lemma_section(v, kind, section),
            PayloadView::End(offset) => {
                if v.state == State::Module {
                    law_module_end(v, offset as int);
                } else if v.state == State::Component {
                    law_component_end(v, offset as int);
                }
            },
            _ => {},
        }
    }
}

} // verus!
