//! What the parts of a binary that are no lists of items do.

use super::component::ComponentView;
use super::features::{default_features, WasmFeatures};
use super::module::{ModuleView, Order};
use super::module_state::ModuleStateView;
use super::{State, ValidPayloadView, ValidatorView};
use crate::parser::{Encoding, Parser, PayloadView};
use crate::reader::binary_reader::{Cursor, Range};
use crate::reader::operators::BlockType;
use vstd::prelude::*;

verus! {

/// What is enabled where nothing else is asked for is what has been added to the language, and
/// nothing that is only proposed.
pub proof fn law_default_features()
    ensures
        ({
            let f = default_features();
            &&& f.mutable_global && f.saturating_float_to_int && f.sign_extension
            &&& f.reference_types && f.multi_value && f.bulk_memory && f.simd
            &&& !f.relaxed_simd && !f.threads && !f.tail_call && !f.multi_memory && !f.exceptions
            &&& !f.memory64 && !f.extended_const && !f.component_model && !f.deterministic_only
        }),
{
}

/// A new validator knows nothing, and takes the header of a module or of a component.
pub proof fn law_nothing_passed(features: WasmFeatures)
    ensures
        ({
            let v = ValidatorView::initial(features);
            &&& v.wf()
            &&& v.features == features
            &&& v.types.len() == 0 && v.components.len() == 0 && v.module is None
            &&& v.state == State::Unparsed(None)
        }),
{
}

/// A header is accepted exactly where one can come: that of a module has version 1, and that of a
/// component version 10 in layer 1 and asks for the component model. It starts a module without anything in it,
/// or a component without anything in it inside those that are open.
pub proof fn law_header(v: ValidatorView, num: u32, encoding: Encoding, range: Range)
    ensures
        ({
            let (w, result) = v.payload(PayloadView::Version { num, encoding, range });
            let module = encoding == Encoding::Module;
            &&& result is Ok <==> {
                &&& v.state == State::Unparsed(None) || v.state == State::Unparsed(Some(encoding))
                &&& module ==> num == 1
                &&& !module ==> num == 0x1_000a && v.features.component_model
            }
            &&& result is Ok && module ==> {
                &&& w.state == State::Module
                &&& w.components == v.components
                &&& w.module == Some(ModuleStateView::initial())
            }
            &&& result is Ok && !module ==> {
                &&& w.state == State::Component
                &&& w.components == v.components.push(ComponentView::empty())
                &&& w.module == v.module
            }
            &&& w.types == v.types && w.features == v.features
            &&& result is Err ==> w == v
        }),
{
}

/// In a module behind its header there is nothing yet.
pub proof fn law_empty_module()
    ensures
        ({
            let s = ModuleStateView::initial();
            let m = s.module;
            &&& s.order == Order::Initial && s.expected_code_bodies is None
            &&& s.code_section_index is None && s.data_segment_count == 0
            &&& m.types.len() == 0 && m.functions.len() == 0 && m.tables.len() == 0
            &&& m.memories.len() == 0 && m.globals.len() == 0 && m.tags.len() == 0
            &&& m.element_types.len() == 0 && m.data_count is None && m.exports.len() == 0
            &&& m.imports.len() == 0 && m.num_imported_functions == 0 && m.num_imported_globals
                == 0
        }),
{
}

/// A module or a component in a component is accepted exactly if there can be one more of it there.
/// Its header has to come next, and the parser that is handed out is the one that was found.
pub proof fn law_nested(v: ValidatorView, parser: Parser, range: Range)
    requires
        v.wf(),
    ensures
        ({
            let (w, result) = v.payload(PayloadView::ModuleSection { parser, range });
            &&& result is Ok <==> v.state == State::Component && v.components.last().modules.len()
                < 1_000
            &&& result matches Ok(valid) ==> valid == ValidPayloadView::Parser(parser) && w == (
            ValidatorView { state: State::Unparsed(Some(Encoding::Module)), ..v })
            &&& result is Err ==> w == v
        }),
        ({
            let (w, result) = v.payload(PayloadView::ComponentSection { parser, range });
            &&& result is Ok <==> v.state == State::Component
                && v.components.last().components.len() < 1_000
            &&& result matches Ok(valid) ==> valid == ValidPayloadView::Parser(parser) && w == (
            ValidatorView { state: State::Unparsed(Some(Encoding::Component)), ..v })
            &&& result is Err ==> w == v
        }),
{
}

/// A data count section says how many data segments have to come, at most a hundred thousand, and does
/// nothing else.
pub proof fn law_data_count(v: ValidatorView, count: u32, range: Range)
    requires
        v.wf(),
        v.state == State::Module,
    ensures
        ({
            let (w, result) = v.payload(PayloadView::DataCountSection { count, range });
            let before = v.module->0;
            let behind = w.module->0;
            &&& result is Ok <==> count <= 100_000 && before.order.place()
                < Order::DataCount.place()
            &&& result is Ok ==> behind == (ModuleStateView {
                order: Order::DataCount,
                module: ModuleView { data_count: Some(count), ..before.module },
                ..before
            })
            &&& w == (ValidatorView { module: w.module, ..v })
        }),
{
}

/// A code section starts only with as many bodies as functions were announced. The bodies may use all
/// types that are known where it starts.
pub proof fn law_code_start(v: ValidatorView, count: u32, range: Range, size: u32)
    requires
        v.wf(),
        v.state == State::Module,
    ensures
        ({
            let (w, result) = v.payload(PayloadView::CodeSectionStart { count, range, size });
            let before = v.module->0;
            let behind = w.module->0;
            let announced = match before.expected_code_bodies {
                Some(n) => n,
                None => 0u32,
            };
            &&& result is Ok <==> count == announced && before.order.place() < Order::Code.place()
            &&& result is Ok ==> behind == (ModuleStateView {
                order: Order::Code,
                expected_code_bodies: None,
                module: ModuleView { snapshot: Some(v.types), ..before.module },
                ..before
            })
            &&& w == (ValidatorView { module: w.module, ..v })
        }),
{
}

/// The validator behind some function bodies.
pub open spec fn behind_bodies(v: ValidatorView, bodies: Seq<Cursor>) -> ValidatorView
    decreases bodies.len(),
{
    if bodies.len() == 0 {
        v
    } else {
        behind_bodies(v, bodies.drop_last()).payload(PayloadView::CodeSectionEntry(bodies.last())).0
    }
}

proof fn lemma_behind_bodies(v: ValidatorView, bodies: Seq<Cursor>)
    requires
        v.state == State::Module,
        v.module is Some,
        v.module->0.code_section_index is None,
        v.module->0.module.num_imported_functions >= 0,
        v.module->0.module.num_imported_functions + bodies.len()
            <= v.module->0.module.functions.len() <= usize::MAX,
    ensures
        ({
            let w = behind_bodies(v, bodies);
            &&& w == (ValidatorView { module: w.module, ..v })
            &&& w.module is Some
            &&& w.module->0.module == v.module->0.module
            &&& w.module->0.next_code() == v.module->0.module.num_imported_functions + bodies.len()
        }),
    decreases bodies.len(),
{
    if bodies.len() > 0 {
        lemma_behind_bodies(v, bodies.drop_last());
    }
}

/// The bodies of a code section are for the functions of the module that are not imported, one after
/// the other: the first body is for the first of them, each next one for the next. A body is handed out
/// with a validator that starts with the parameters of its function as locals and has to give its
/// results. There are not more bodies than such functions.
pub proof fn law_bodies_in_order(v: ValidatorView, bodies: Seq<Cursor>, body: Cursor)
    requires
        v.wf(),
        v.state == State::Module,
        v.module->0.code_section_index is None,
        v.module->0.module.snapshot is Some,
        v.module->0.module.num_imported_functions + bodies.len()
            <= v.module->0.module.functions.len() <= usize::MAX,
    ensures
        ({
            let module = v.module->0.module;
            let i = module.num_imported_functions + bodies.len();
            let (w, result) = behind_bodies(v, bodies).payload(PayloadView::CodeSectionEntry(body));
            let ty = module.functions[i];
            &&& result is Ok <==> i < module.functions.len()
            &&& result matches Ok(valid) ==> {
                let func = module.snapshot->0[module.types[ty as int] as int]->Func_0;
                &&& valid matches ValidPayloadView::Func(f, given)
                &&& given == body
                &&& f.ops.locals == func.params
                &&& f.ops.operands.len() == 0
                &&& f.ops.control.len() == 1
                &&& f.ops.control[0].block_type == BlockType::FuncType(ty)
                &&& f.module == module
                &&& f.features == v.features
            }
        }),
{
    lemma_behind_bodies(v, bodies);
    let module = v.module->0.module;
    let i = module.num_imported_functions + bodies.len();
    if i < module.functions.len() {
        assert(module.functions[i] < module.types.len());
    }
}

} // verus!
