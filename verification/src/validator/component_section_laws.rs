//! What the sections of a component do, item by item.

use super::component::ComponentView;
use super::component_instances::around;
use super::component_laws::{law_every_item, step, Moment};
use super::component_sections::ComponentSection;
use super::features::WasmFeatures;
use super::section_laws::read;
use super::types::DefinedTypeView;
use super::{State, ValidatorView};
use crate::error::Result;
use crate::parser::{PayloadView, SectionKind};
use crate::reader::component::exports::{ComponentExportSectionReader, ComponentExportView};
use crate::reader::component::items::{AliasView, ComponentFunctionView, ComponentStartFunction};
use crate::reader::component::types::{ComponentImportView, ComponentTypeDefView};
use crate::reader::binary_reader::Cursor;
use crate::reader::sections::{
    AliasSectionReader, ComponentFunctionSectionReader, ComponentImportSectionReader,
    ComponentTypeSectionReader, SectionView,
};
use crate::reader::types::FromReader;
use vstd::prelude::*;

verus! {

/// A section of a component is accepted.
pub open spec fn taken(v: ValidatorView, kind: SectionKind, s: SectionView) -> bool {
    v.payload(PayloadView::Section(kind, s)).1 is Ok
}

/// The moments of a section: one more than it has items, the first in front of it and the last behind
/// it. Nothing but the innermost component and the types changes.
pub open spec fn moments_of(
    v: ValidatorView,
    kind: SectionKind,
    s: SectionView,
    moments: Seq<Moment>,
) -> bool {
    let w = v.payload(PayloadView::Section(kind, s)).0;
    &&& v.features.component_model
    &&& v.state == State::Component
    &&& moments.len() == s.count + 1
    &&& moments[0].component == v.components.last() && moments[0].types == v.types
    &&& w.components == around(v.components).push(moments.last().component)
    &&& w.types == moments.last().types
    &&& w.state == v.state && w.module == v.module && w.features == v.features
}

/// Something that gives a component anew has given the next moment, with the same types.
pub open spec fn gave(before: Moment, behind: Moment, out: (ComponentView, Result<()>)) -> bool {
    out.1 is Ok && behind.component == out.0 && behind.types == before.types
}

/// Something that gives a component and types anew has given the next moment.
pub open spec fn gave_types(
    behind: Moment,
    out: (ComponentView, Seq<DefinedTypeView>, Result<()>),
) -> bool {
    out.2 is Ok && behind.component == out.0 && behind.types == out.1
}

/// An alias has been added.
pub open spec fn aliased(
    outer: Seq<ComponentView>,
    item: AliasView,
    before: Moment,
    behind: Moment,
) -> bool {
    exists|offset: int|
        gave(
            before,
            behind,
            #[trigger] before.component.add_alias(outer, before.types, item, offset),
        )
}

/// If an alias section is accepted, each of its aliases is added, one after the other.
pub proof fn law_alias_section(v: ValidatorView, s: SectionView) -> (moments: Seq<Moment>)
    requires
        taken(v, SectionKind::Alias, s),
    ensures
        moments_of(v, SectionKind::Alias, s, moments),
        ({
            let items: Seq<AliasView> = read::<AliasSectionReader>(s, s.count as nat).0;
            &&& items.len() == s.count
            &&& forall|i: int|
                0 <= i < s.count ==> aliased(
                    around(v.components),
                    items[i],
                    #[trigger] moments[i],
                    moments[i + 1],
                )
        }),
{
    let moments = law_every_item::<AliasSectionReader>(v, s);
    let items: Seq<AliasView> = read::<AliasSectionReader>(s, s.count as nat).0;
    let outer = around(v.components);
    assert forall|i: int| 0 <= i < s.count implies aliased(
        outer,
        items[i],
        #[trigger] moments[i],
        moments[i + 1],
    ) by {
        let before = moments[i];
        let behind = moments[i + 1];
        assert(step::<AliasSectionReader>(outer, v.features, items[i], before, behind));
        let offset = choose|offset: int|
            {
                let (c, ts, r) = #[trigger] AliasSectionReader::added(
                    outer,
                    before.component,
                    before.types,
                    v.features,
                    items[i],
                    offset,
                );
                r is Ok && behind.component == c && behind.types == ts
            };
        assert(gave(
            before,
            behind,
            before.component.add_alias(outer, before.types, items[i], offset),
        ));
    }
    moments
}

/// An import has been added.
pub open spec fn imported(item: ComponentImportView, before: Moment, behind: Moment) -> bool {
    exists|offset: int|
        gave(before, behind, #[trigger] before.component.add_import(before.types, item, offset))
}

/// If an import section of a component is accepted, each of its imports is added, one after the other.
pub proof fn law_component_import_section(v: ValidatorView, s: SectionView) -> (moments: Seq<Moment>)
    requires
        taken(v, SectionKind::ComponentImport, s),
    ensures
        moments_of(v, SectionKind::ComponentImport, s, moments),
        ({
            let items: Seq<ComponentImportView> = read::<ComponentImportSectionReader>(
                s,
                s.count as nat,
            ).0;
            &&& items.len() == s.count
            &&& forall|i: int|
                0 <= i < s.count ==> imported(items[i], #[trigger] moments[i], moments[i + 1])
        }),
{
    let moments = law_every_item::<ComponentImportSectionReader>(v, s);
    let items: Seq<ComponentImportView> = read::<ComponentImportSectionReader>(
        s,
        s.count as nat,
    ).0;
    let outer = around(v.components);
    assert forall|i: int| 0 <= i < s.count implies imported(
        items[i],
        #[trigger] moments[i],
        moments[i + 1],
    ) by {
        let before = moments[i];
        let behind = moments[i + 1];
        assert(step::<ComponentImportSectionReader>(outer, v.features, items[i], before, behind));
        let offset = choose|offset: int|
            {
                let (c, ts, r) = #[trigger] ComponentImportSectionReader::added(
                    outer,
                    before.component,
                    before.types,
                    v.features,
                    items[i],
                    offset,
                );
                r is Ok && behind.component == c && behind.types == ts
            };
        assert(gave(before, behind, before.component.add_import(before.types, items[i], offset)));
    }
    moments
}

/// An export has been added.
pub open spec fn exported_from(item: ComponentExportView, before: Moment, behind: Moment) -> bool {
    exists|offset: int|
        gave(before, behind, #[trigger] before.component.export(before.types, item, offset))
}

/// If an export section of a component is accepted, each of its exports is added, one after the other,
/// and there are at most a hundred thousand.
pub proof fn law_component_export_section(v: ValidatorView, s: SectionView) -> (moments: Seq<Moment>)
    requires
        taken(v, SectionKind::ComponentExport, s),
    ensures
        moments_of(v, SectionKind::ComponentExport, s, moments),
        v.components.last().exports.len() + s.count <= 100_000,
        ({
            let items: Seq<ComponentExportView> = read::<ComponentExportSectionReader>(
                s,
                s.count as nat,
            ).0;
            &&& items.len() == s.count
            &&& forall|i: int|
                0 <= i < s.count ==> exported_from(items[i], #[trigger] moments[i], moments[i + 1])
        }),
{
    let moments = law_every_item::<ComponentExportSectionReader>(v, s);
    let items: Seq<ComponentExportView> = read::<ComponentExportSectionReader>(
        s,
        s.count as nat,
    ).0;
    let outer = around(v.components);
    assert forall|i: int| 0 <= i < s.count implies exported_from(
        items[i],
        #[trigger] moments[i],
        moments[i + 1],
    ) by {
        let before = moments[i];
        let behind = moments[i + 1];
        assert(step::<ComponentExportSectionReader>(outer, v.features, items[i], before, behind));
        let offset = choose|offset: int|
            {
                let (c, ts, r) = #[trigger] ComponentExportSectionReader::added(
                    outer,
                    before.component,
                    before.types,
                    v.features,
                    items[i],
                    offset,
                );
                r is Ok && behind.component == c && behind.types == ts
            };
        assert(gave(before, behind, before.component.export(before.types, items[i], offset)));
    }
    moments
}

/// A function has been made from another.
pub open spec fn made(item: ComponentFunctionView, before: Moment, behind: Moment) -> bool {
    match item {
        ComponentFunctionView::Lift { type_index, func_index, options } => exists|offset: int|
            gave(
                before,
                behind,
                #[trigger] before.component.lift_function(
                    before.types,
                    type_index,
                    func_index,
                    options,
                    offset,
                ),
            ),
        ComponentFunctionView::Lower { func_index, options } => exists|offset: int|
            gave_types(
                behind,
                #[trigger] before.component.lower_function(
                    before.types,
                    func_index,
                    options,
                    offset,
                ),
            ),
    }
}

/// If a function section of a component is accepted, each of its functions is made, one after the
/// other, and there are at most a million.
pub proof fn law_component_function_section(v: ValidatorView, s: SectionView) -> (moments: Seq<
    Moment,
>)
    requires
        taken(v, SectionKind::ComponentFunction, s),
    ensures
        moments_of(v, SectionKind::ComponentFunction, s, moments),
        v.components.last().functions.len() + s.count <= 1_000_000,
        ({
            let items: Seq<ComponentFunctionView> = read::<ComponentFunctionSectionReader>(
                s,
                s.count as nat,
            ).0;
            &&& items.len() == s.count
            &&& forall|i: int|
                0 <= i < s.count ==> made(items[i], #[trigger] moments[i], moments[i + 1])
        }),
{
    let moments = law_every_item::<ComponentFunctionSectionReader>(v, s);
    let items: Seq<ComponentFunctionView> = read::<ComponentFunctionSectionReader>(
        s,
        s.count as nat,
    ).0;
    let outer = around(v.components);
    assert forall|i: int| 0 <= i < s.count implies made(
        items[i],
        #[trigger] moments[i],
        moments[i + 1],
    ) by {
        let before = moments[i];
        let behind = moments[i + 1];
        assert(step::<ComponentFunctionSectionReader>(outer, v.features, items[i], before, behind));
        let offset = choose|offset: int|
            {
                let (c, ts, r) = #[trigger] ComponentFunctionSectionReader::added(
                    outer,
                    before.component,
                    before.types,
                    v.features,
                    items[i],
                    offset,
                );
                r is Ok && behind.component == c && behind.types == ts
            };
        match items[i] {
            ComponentFunctionView::Lift { type_index, func_index, options } => {
                assert(gave(
                    before,
                    behind,
                    before.component.lift_function(
                        before.types,
                        type_index,
                        func_index,
                        options,
                        offset,
                    ),
                ));
            },
            ComponentFunctionView::Lower { func_index, options } => {
                assert(gave_types(
                    behind,
                    before.component.lower_function(before.types, func_index, options, offset),
                ));
            },
        }
    }
    moments
}

/// A type has been added.
pub open spec fn defined_type(
    outer: Seq<ComponentView>,
    features: WasmFeatures,
    item: ComponentTypeDefView,
    before: Moment,
    behind: Moment,
) -> bool {
    exists|offset: int|
        gave_types(
            behind,
            #[trigger] before.component.add_type(outer, before.types, item, features, offset),
        )
}

/// If a type section of a component is accepted, each of its types is added, one after the other, and
/// there are at most a million.
pub proof fn law_component_type_section(v: ValidatorView, s: SectionView) -> (moments: Seq<Moment>)
    requires
        taken(v, SectionKind::ComponentType, s),
    ensures
        moments_of(v, SectionKind::ComponentType, s, moments),
        v.components.last().types.len() + s.count <= 1_000_000,
        ({
            let items: Seq<ComponentTypeDefView> = read::<ComponentTypeSectionReader>(
                s,
                s.count as nat,
            ).0;
            &&& items.len() == s.count
            &&& forall|i: int|
                0 <= i < s.count ==> defined_type(
                    around(v.components),
                    v.features,
                    items[i],
                    #[trigger] moments[i],
                    moments[i + 1],
                )
        }),
{
    let moments = law_every_item::<ComponentTypeSectionReader>(v, s);
    let items: Seq<ComponentTypeDefView> = read::<ComponentTypeSectionReader>(
        s,
        s.count as nat,
    ).0;
    let outer = around(v.components);
    assert forall|i: int| 0 <= i < s.count implies defined_type(
        outer,
        v.features,
        items[i],
        #[trigger] moments[i],
        moments[i + 1],
    ) by {
        let before = moments[i];
        let behind = moments[i + 1];
        assert(step::<ComponentTypeSectionReader>(outer, v.features, items[i], before, behind));
        let offset = choose|offset: int|
            {
                let (c, ts, r) = #[trigger] ComponentTypeSectionReader::added(
                    outer,
                    before.component,
                    before.types,
                    v.features,
                    items[i],
                    offset,
                );
                r is Ok && behind.component == c && behind.types == ts
            };
        assert(gave_types(
            behind,
            before.component.add_type(outer, before.types, items[i], v.features, offset),
        ));
    }
    moments
}

/// If a start section of a component is accepted, what it names is started.
pub proof fn law_component_start_section(v: ValidatorView, section: Cursor)
    requires
        v.wf(),
        v.payload(PayloadView::ComponentStartSection(section)).1 is Ok,
    ensures
        ({
            let w = v.payload(PayloadView::ComponentStartSection(section)).0;
            let (d, start) = <ComponentStartFunction as FromReader>::parse(section);
            &&& v.state == State::Component
            &&& start is Ok
            &&& exists|offset: int|
                {
                    let (c, r) = #[trigger] v.components.last().add_start(
                        v.types,
                        start->Ok_0.func_index,
                        start->Ok_0.arguments,
                        offset,
                    );
                    r is Ok && w.components == around(v.components).push(c)
                }
            &&& w.types == v.types && w.state == v.state && w.features == v.features
        }),
{
    let (d, start) = <ComponentStartFunction as FromReader>::parse(section);
    let (c, r) = v.components.last().add_start(
        v.types,
        start->Ok_0.func_index,
        start->Ok_0.arguments,
        section.base,
    );
    assert(r is Ok);
}

} // verus!
