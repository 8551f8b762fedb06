//! What is told of the types of a module or component.

use super::component::ComponentView;
use super::laws::law_section_keeps_state;
use super::module::ModuleView;
use super::section_laws::{
    accepted, functions_of, grows, law_definitions_stay, law_function_section, law_import_section,
    lemma_grows_on, read,
};
use super::type_info::{nth, TypesKindView, TypesView};
use super::types::{is_func_type, lemma_starts_with_both, starts_with, DefinedTypeView};
use super::{State, ValidatorView};
use crate::parser::{PayloadView, SectionKind};
use crate::reader::sections::{FunctionSectionReader, ImportSectionReader, SectionView};
use vstd::prelude::*;

verus! {

/// A list has an element at each index below its length, and none behind.
pub proof fn law_nth<T>(list: Seq<T>, index: u32)
    ensures
        index < list.len() ==> nth(list, index) == Some(list[index as int]),
        index >= list.len() ==> nth(list, index) is None,
{
}

/// What is counted is what there is: each index below a count is that of something, and of a module no
/// other is.
pub proof fn law_counts(types: TypesView, index: u32)
    requires
        types.wf(),
    ensures
        types.func_type(index) is Some ==> index < types.type_count(),
        types.function(index) is Some ==> index < types.function_count(),
        types.tag(index) is Some <==> index < types.tag_count(),
        types.kind matches TypesKindView::Module(m) ==> {
            &&& types.func_type(index) is Some <==> index < types.type_count()
            &&& types.function(index) is Some <==> index < types.function_count()
            &&& types.type_count() == m.types.len() && types.function_count() == m.functions.len()
            &&& types.tag_count() == m.tags.len()
            &&& types.module_count() == 0 && types.component_count() == 0
            &&& types.instance_count() == 0 && types.value_count() == 0
        },
        types.kind matches TypesKindView::Component(c) ==> {
            &&& types.type_count() == c.types.len() && types.function_count() == c.functions.len()
            &&& types.tag_count() == c.tags.len()
            &&& types.module_count() == c.modules.len()
            &&& types.component_count() == c.components.len()
            &&& types.instance_count() == c.instances.len()
            &&& types.value_count() == c.values.len()
        },
{
    match types.kind {
        TypesKindView::Module(m) => law_module_types(types, m, index),
        TypesKindView::Component(c) => {
            if index < c.tags.len() {
                assert(is_func_type(types.types, c.tags[index as int]));
            }
        },
    }
}

/// Of a module, the type with an index is the function type that the module has at that index, the
/// type of a function is the type that the function was given, and the tables, memories, globals,
/// tags and element segments are those of the module, by their indices.
pub proof fn law_module_types(types: TypesView, m: ModuleView, index: u32)
    requires
        types.wf(),
        types.kind == TypesKindView::Module(m),
    ensures
        types.func_type(index) is Some <==> index < m.types.len(),
        types.func_type(index) matches Some(ty) ==> types.types[m.types[index as int] as int]
            == DefinedTypeView::Func(ty),
        types.function(index) is Some <==> index < m.functions.len(),
        index < m.functions.len() ==> types.function(index) == types.func_type(
            m.functions[index as int],
        ),
        types.tag(index) is Some <==> index < m.tags.len(),
        types.tag(index) matches Some(ty) ==> types.types[m.tags[index as int] as int]
            == DefinedTypeView::Func(ty),
        types.tables() == m.tables,
        types.memories() == m.memories,
        types.globals() == m.globals,
        types.elements() == m.element_types,
{
    if index < m.types.len() {
        assert(is_func_type(types.types, m.types[index as int]));
    }
    if index < m.functions.len() {
        let ty = m.functions[index as int];
        assert(ty < m.types.len());
        assert(is_func_type(types.types, m.types[ty as int]));
    }
    if index < m.tags.len() {
        assert(is_func_type(types.types, m.tags[index as int]));
    }
}

/// Of a component, the type with an index is told if it is a core function type, the type of a
/// function if it is a core function, and the tables, memories, globals and tags are those that the
/// component has by aliases. A component has no element segments.
pub proof fn law_component_types(types: TypesView, c: ComponentView, index: u32)
    requires
        types.wf(),
        types.kind == TypesKindView::Component(c),
    ensures
        types.func_type(index) matches Some(ty) ==> index < c.types.len()
            && types.types[c.types[index as int] as int] == DefinedTypeView::Func(ty),
        index < c.types.len() && types.types[c.types[index as int] as int] is Func
            ==> types.func_type(index) is Some,
        types.function(index) matches Some(ty) ==> index < c.functions.len()
            && types.types[c.functions[index as int] as int] == DefinedTypeView::Func(ty),
        index < c.functions.len() && types.types[c.functions[index as int] as int] is Func
            ==> types.function(index) is Some,
        types.tag(index) matches Some(ty) ==> index < c.tags.len()
            && types.types[c.tags[index as int] as int] == DefinedTypeView::Func(ty),
        index < c.tags.len() && types.types[c.tags[index as int] as int] is Func
            ==> types.tag(index) is Some,
        types.tables() == c.tables,
        types.memories() == c.memories,
        types.globals() == c.globals,
        types.elements().len() == 0,
{
}

/// At the end of a module its types are told: those of the module as it is, and all types that there
/// were are still in their places.
pub proof fn law_module_told(v: ValidatorView, offset: int)
    requires
        v.wf(),
        v.state == State::Module,
    ensures
        v.end(offset).1 matches Ok(types) ==> {
            &&& types.kind == TypesKindView::Module(v.module->0.module)
            &&& starts_with(types.types, v.types)
            &&& types.types == v.end(offset).0.types
        },
{
}

/// At the end of a component its types are told: all that it has of each kind.
pub proof fn law_component_told(v: ValidatorView, offset: int)
    requires
        v.wf(),
        v.state == State::Component,
    ensures
        v.end(offset).1 matches Ok(types) && types.kind matches TypesKindView::Component(c) && {
            let last = v.components[v.components.len() - 1];
            &&& c == (ComponentView { imports: c.imports, exports: c.exports, ..last })
            &&& v.components.len() == 1 ==> c == last
            &&& starts_with(types.types, v.types)
        },
{
}

/// A validator to which parts of a module are passed, one after the other, all of which are
/// accepted.
pub open spec fn passed(v: ValidatorView, parts: Seq<PayloadView>) -> Option<ValidatorView>
    decreases parts.len(),
{
    if parts.len() == 0 {
        Some(v)
    } else {
        match v.payload(parts[0]) {
            (w, Ok(_)) => passed(w, parts.skip(1)),
            _ => None,
        }
    }
}

proof fn lemma_passed(v: ValidatorView, parts: Seq<PayloadView>)
    requires
        v.state == State::Module,
        v.module is Some,
        forall|i: int| 0 <= i < parts.len() ==> (#[trigger] parts[i]) !is End,
    ensures
        passed(v, parts) matches Some(x) ==> {
            &&& x.state == State::Module
            &&& x.module is Some
            &&& grows(v.module->0.module, x.module->0.module)
            &&& starts_with(x.types, v.types)
        },
    decreases parts.len(),
{
    if parts.len() > 0 {
        assert(parts[0] !is End);
        law_definitions_stay(v, parts[0]);
        let w = v.payload(parts[0]).0;
        let later = parts.skip(1);
        assert forall|i: int| 0 <= i < later.len() implies (#[trigger] later[i]) !is End by {
            assert(later[i] == parts[i + 1]);
        }
        lemma_passed(w, later);
        if let Some(x) = passed(w, later) {
            lemma_grows_on(
                v.module->0.module,
                w.module->0.module,
                x.module->0.module,
            );
            lemma_starts_with_both(x.types, w.types, v.types);
        }
    }
}

/// What a module has at any place is what is told of it at its end, whatever parts come in between:
/// each function is of the type that it was given, each type, table, memory, global, tag and element
/// segment is the one that it was.
pub proof fn law_told_at_the_end(
    v: ValidatorView,
    parts: Seq<PayloadView>,
    offset: int,
    index: u32,
)
    requires
        v.wf(),
        v.state == State::Module,
        forall|i: int| 0 <= i < parts.len() ==> (#[trigger] parts[i]) !is End,
        passed(v, parts) is Some,
        passed(v, parts)->0.wf(),
        passed(v, parts)->0.end(offset).1 is Ok,
        passed(v, parts)->0.end(offset).1->Ok_0.wf(),
    ensures
        ({
            let m = v.module->0.module;
            let types = passed(v, parts)->0.end(offset).1->Ok_0;
            &&& index < m.functions.len() ==> {
                &&& types.function(index) is Some
                &&& types.function(index) == types.func_type(m.functions[index as int])
            }
            &&& index < m.types.len() ==> types.func_type(index) == Some(
                v.types[m.types[index as int] as int]->Func_0,
            )
            &&& index < m.tags.len() ==> types.tag(index) == Some(
                v.types[m.tags[index as int] as int]->Func_0,
            )
            &&& index < m.tables.len() ==> nth(types.tables(), index) == Some(
                m.tables[index as int],
            )
            &&& index < m.memories.len() ==> nth(types.memories(), index) == Some(
                m.memories[index as int],
            )
            &&& index < m.globals.len() ==> nth(types.globals(), index) == Some(
                m.globals[index as int],
            )
            &&& index < m.element_types.len() ==> nth(types.elements(), index) == Some(
                m.element_types[index as int],
            )
        }),
{
    lemma_passed(v, parts);
    let m = v.module->0.module;
    let x = passed(v, parts)->0;
    let n = x.module->0.module;
    let types = x.end(offset).1->Ok_0;
    law_module_told(x, offset);
    law_module_types(types, n, index);
    lemma_starts_with_both(types.types, x.types, v.types);
    if index < m.functions.len() {
        assert(n.functions[index as int] == m.functions[index as int]);
    }
    if index < m.types.len() {
        assert(n.types[index as int] == m.types[index as int]);
        let place = m.types[index as int];
        assert(is_func_type(v.types, place));
        assert(types.types[place as int] == v.types[place as int]);
    }
    if index < m.tags.len() {
        assert(n.tags[index as int] == m.tags[index as int]);
        let place = m.tags[index as int];
        assert(is_func_type(v.types, place));
        assert(types.types[place as int] == v.types[place as int]);
    }
    if index < m.tables.len() {
        assert(n.tables[index as int] == m.tables[index as int]);
    }
    if index < m.memories.len() {
        assert(n.memories[index as int] == m.memories[index as int]);
    }
    if index < m.globals.len() {
        assert(n.globals[index as int] == m.globals[index as int]);
    }
    if index < m.element_types.len() {
        assert(n.element_types[index as int] == m.element_types[index as int]);
    }
}

/// The functions of a function section are told, at the end of the module, behind those that there
/// were before: each is of the type that the section names for it.
pub proof fn law_functions_told(
    v: ValidatorView,
    s: SectionView,
    parts: Seq<PayloadView>,
    offset: int,
    i: int,
)
    requires
        accepted(v, SectionKind::Function, s),
        v.payload(PayloadView::Section(SectionKind::Function, s)).0.wf(),
        forall|j: int| 0 <= j < parts.len() ==> (#[trigger] parts[j]) !is End,
        ({
            let w = v.payload(PayloadView::Section(SectionKind::Function, s)).0;
            &&& passed(w, parts) is Some
            &&& passed(w, parts)->0.wf()
            &&& passed(w, parts)->0.end(offset).1 is Ok
            &&& passed(w, parts)->0.end(offset).1->Ok_0.wf()
        }),
        0 <= i < s.count,
    ensures
        ({
            let w = v.payload(PayloadView::Section(SectionKind::Function, s)).0;
            let types = passed(w, parts)->0.end(offset).1->Ok_0;
            let k = v.module->0.module.functions.len();
            let items: Seq<u32> = read::<FunctionSectionReader>(s, s.count as nat).0;
            &&& types.function((k + i) as u32) is Some
            &&& types.function((k + i) as u32) == types.func_type(items[i])
        }),
{
    law_function_section(v, s);
    let w = v.payload(PayloadView::Section(SectionKind::Function, s)).0;
    law_section_keeps_state(v, SectionKind::Function, s);
    let k = v.module->0.module.functions.len();
    let items: Seq<u32> = read::<FunctionSectionReader>(s, s.count as nat).0;
    law_told_at_the_end(w, parts, offset, (k + i) as u32);
    assert(w.module->0.module.functions[k + i] == items[i]);
}

/// The functions of an import section are told, at the end of the module, behind those that there
/// were before: each is of the type that its import names.
pub proof fn law_imported_functions_told(
    v: ValidatorView,
    s: SectionView,
    parts: Seq<PayloadView>,
    offset: int,
    j: int,
)
    requires
        accepted(v, SectionKind::Import, s),
        v.payload(PayloadView::Section(SectionKind::Import, s)).0.wf(),
        forall|i: int| 0 <= i < parts.len() ==> (#[trigger] parts[i]) !is End,
        ({
            let w = v.payload(PayloadView::Section(SectionKind::Import, s)).0;
            &&& passed(w, parts) is Some
            &&& passed(w, parts)->0.wf()
            &&& passed(w, parts)->0.end(offset).1 is Ok
            &&& passed(w, parts)->0.end(offset).1->Ok_0.wf()
        }),
        0 <= j < functions_of(read::<ImportSectionReader>(s, s.count as nat).0).len(),
        v.module->0.module.functions.len() + j <= u32::MAX,
    ensures
        ({
            let w = v.payload(PayloadView::Section(SectionKind::Import, s)).0;
            let types = passed(w, parts)->0.end(offset).1->Ok_0;
            let k = v.module->0.module.functions.len();
            let named = functions_of(read::<ImportSectionReader>(s, s.count as nat).0);
            &&& types.function((k + j) as u32) is Some
            &&& types.function((k + j) as u32) == types.func_type(named[j])
        }),
{
    law_import_section(v, s);
    let w = v.payload(PayloadView::Section(SectionKind::Import, s)).0;
    law_section_keeps_state(v, SectionKind::Import, s);
    let k = v.module->0.module.functions.len();
    let named = functions_of(read::<ImportSectionReader>(s, s.count as nat).0);
    law_told_at_the_end(w, parts, offset, (k + j) as u32);
    assert(w.module->0.module.functions[k + j] == named[j]);
}

} // verus!
