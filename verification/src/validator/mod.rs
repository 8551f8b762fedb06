//! Validation of WebAssembly modules and components.

pub mod component;
pub mod component_functions;
pub mod component_instances;
pub mod component_laws;
pub mod component_section_laws;
pub mod component_sections;
pub mod component_type_laws;
pub mod component_types;
pub mod definition_laws;
pub mod entity_laws;
pub mod features;
pub mod func;
pub mod laws;
pub mod lowering;
pub mod lowering_laws;
pub mod module;
pub mod module_sections;
pub mod module_state;
pub mod names;
pub mod operator_laws;
pub mod operators;
pub mod part_laws;
pub mod run_laws;
pub mod section_laws;
pub mod subtype_laws;
pub mod subtypes;
pub mod type_info;
pub mod type_info_laws;
pub mod types;

use self::component::{ComponentState, ComponentView};
use self::component_instances::{around, lemma_component_longer, stack_ok};
use self::component_sections::{lemma_stack, ComponentSection};
use self::features::{default_features, WasmFeatures};
use self::func::{FuncValidator, FuncView, ValidatorResources};
use self::laws::{in_step, law_stays_in_step};
use self::module::{ModuleView, Order};
use self::module_sections::ModuleSection;
use self::module_state::{ModuleState, ModuleStateView};
use self::type_info::{Types, TypesKindView, TypesView};
use self::types::{starts_with, types_ok, DefinedTypeView, TypeList};
use crate::error::{
    error_at, number_error_at, viewed, word_error_at, BinaryReaderError, Message, Result,
};
use crate::limits::{MAX_WASM_COMPONENTS, MAX_WASM_DATA_SEGMENTS, MAX_WASM_MODULES};
use crate::parser::{
    Encoding, ParseView, Parser, Payload, PayloadView, SectionKind, WASM_COMPONENT_VERSION,
    WASM_MODULE_VERSION,
};
use crate::reader::binary_reader::{Cursor, Range};
use crate::reader::component::exports::ComponentExportSectionReader;
use crate::reader::component::items::{ComponentStartFunction, ComponentStartSectionReader};
use crate::reader::sections::{
    AliasSectionReader, ComponentFunctionSectionReader, ComponentImportSectionReader,
    ComponentTypeSectionReader, DataSectionReader, ElementSectionReader, ExportSectionReader,
    FunctionBody, FunctionSectionReader, GlobalSectionReader, ImportSectionReader,
    InstanceSectionReader, MemorySectionReader, SectionReader, SectionView, TableSectionReader,
    TagSectionReader, TypeSectionReader,
};
use crate::reader::types::{views, FromReader};
use vstd::prelude::*;

verus! {

/// The error for more of something than there can be: there are `cur_len` of
/// them, `amt_added` are added, and there can be `max`.
pub open spec fn max_check(
    cur_len: int,
    amt_added: int,
    max: usize,
    desc: &'static str,
    offset: int,
) -> Result<()> {
    if cur_len + amt_added <= max {
        Ok(())
    } else if max == 1 {
        Err(word_error_at("multiple ", desc, "", offset))
    } else {
        Err(
            BinaryReaderError {
                message: Message::Limit { what: desc, limit: max as u64 },
                offset: offset as usize,
            },
        )
    }
}

/// Checks that there are not more of something than there can be.
pub(crate) fn check_max(
    cur_len: usize,
    amt_added: u32,
    max: usize,
    desc: &'static str,
    offset: usize,
) -> (result: Result<()>)
    ensures
        result == max_check(cur_len as int, amt_added as int, max, desc, offset as int),
{
    let room = match max.checked_sub(cur_len) {
        Some(amt) => amt.checked_sub(amt_added as usize),
        None => None,
    };
    if room.is_none() {
        if max == 1 {
            return Err(BinaryReaderError::with_word("multiple ", desc, "", offset));
        }
        return Err(
            BinaryReaderError { message: Message::Limit { what: desc, limit: max as u64 }, offset },
        );
    }
    Ok(())
}

/// What a validator expects.
#[derive(Debug, Copy, Clone, PartialEq, Eq, Structural)]
pub enum State {
    /// A header has not yet been parsed.
    ///
    /// The value is the expected encoding for the header.
    Unparsed(Option<Encoding>),
    /// A module header has been parsed.
    Module,
    /// A component header has been parsed.
    Component,
    /// The parse has completed and no more data is expected.
    End,
}

impl State {
    /// Why a section of a module cannot come, if it cannot.
    pub open spec fn module_state(self, section: &'static str, offset: int) -> Result<()> {
        match self {
            State::Unparsed(_) => Err(
                word_error_at(
                    "unexpected module ",
                    section,
                    " section before header was parsed",
                    offset,
                ),
            ),
            State::Module => Ok(()),
            State::Component => Err(
                word_error_at(
                    "unexpected module ",
                    section,
                    " section while parsing a component",
                    offset,
                ),
            ),
            State::End => Err(
                word_error_at(
                    "unexpected module ",
                    section,
                    " section after parsing has completed",
                    offset,
                ),
            ),
        }
    }

    /// Why a section of a component cannot come, if it cannot.
    pub open spec fn component_state(self, section: &'static str, offset: int) -> Result<()> {
        match self {
            State::Unparsed(_) => Err(
                word_error_at(
                    "unexpected component ",
                    section,
                    " section before header was parsed",
                    offset,
                ),
            ),
            State::Module => Err(
                word_error_at(
                    "unexpected component ",
                    section,
                    " section while parsing a module",
                    offset,
                ),
            ),
            State::Component => Ok(()),
            State::End => Err(
                word_error_at(
                    "unexpected component ",
                    section,
                    " section after parsing has completed",
                    offset,
                ),
            ),
        }
    }

    fn ensure_module_state(&self, section: &'static str, offset: usize) -> (result: Result<()>)
        ensures
            result == self.module_state(section, offset as int),
    {
        match self {
            State::Unparsed(_) => Err(
                BinaryReaderError::with_word(
                    "unexpected module ",
                    section,
                    " section before header was parsed",
                    offset,
                ),
            ),
            State::Module => Ok(()),
            State::Component => Err(
                BinaryReaderError::with_word(
                    "unexpected module ",
                    section,
                    " section while parsing a component",
                    offset,
                ),
            ),
            State::End => Err(
                BinaryReaderError::with_word(
                    "unexpected module ",
                    section,
                    " section after parsing has completed",
                    offset,
                ),
            ),
        }
    }

    fn ensure_component_state(&self, section: &'static str, offset: usize) -> (result: Result<()>)
        ensures
            result == self.component_state(section, offset as int),
    {
        match self {
            State::Unparsed(_) => Err(
                BinaryReaderError::with_word(
                    "unexpected component ",
                    section,
                    " section before header was parsed",
                    offset,
                ),
            ),
            State::Module => Err(
                BinaryReaderError::with_word(
                    "unexpected component ",
                    section,
                    " section while parsing a module",
                    offset,
                ),
            ),
            State::Component => Ok(()),
            State::End => Err(
                BinaryReaderError::with_word(
                    "unexpected component ",
                    section,
                    " section after parsing has completed",
                    offset,
                ),
            ),
        }
    }
}

impl Default for State {
    fn default() -> (state: State)
        ensures
            state == State::Unparsed(None),
    {
        State::Unparsed(None)
    }
}

/// Validator for a WebAssembly binary module or component.
///
/// This structure encapsulates state necessary to validate a WebAssembly
/// binary. A `Validator` accepts the parts of a binary over time: each
/// [`Payload`] that a [`Parser`] gives is passed to it, as a whole to
/// [`Validator::payload`] or to the method for its kind.
///
/// Function bodies are not validated where they are met: a [`FuncValidator`] is
/// handed out for each, which can be used at any time.
pub struct Validator {
    /// The current state of the validator.
    state: State,
    /// The global type space used by the validator and any sub-validators.
    types: TypeList,
    /// The module state when parsing a WebAssembly module.
    module: Option<ModuleState>,
    /// With the component model enabled, this stores the pushed component states.
    /// The top of the stack is the current component state.
    components: Vec<ComponentState>,
    /// Enabled WebAssembly feature flags, dictating what's valid and what
    /// isn't.
    features: WasmFeatures,
}

/// What a [`Validator`] holds.
#[verifier::ext_equal]
pub struct ValidatorView {
    /// What is expected.
    pub state: State,
    /// The list of all types.
    pub types: Seq<DefinedTypeView>,
    /// The module that is being validated.
    pub module: Option<ModuleStateView>,
    /// The components that are being validated, each in the one before.
    pub components: Seq<ComponentView>,
    /// The features that are enabled.
    pub features: WasmFeatures,
}

impl View for Validator {
    type V = ValidatorView;

    closed spec fn view(&self) -> ValidatorView {
        ValidatorView {
            state: self.state,
            types: self.types@,
            module: match self.module {
                Some(module) => Some(module@),
                None => None,
            },
            components: views(self.components@),
            features: self.features,
        }
    }
}

/// Possible return values from [`Validator::payload`].
pub enum ValidPayload<'a> {
    /// The payload validated, no further action need be taken.
    Valid,
    /// The payload validated, but it started a nested module or component.
    ///
    /// This result indicates that the specified parser should be used instead
    /// of the currently-used parser until this returned one ends.
    Parser(Parser),
    /// A function was found to be validate.
    Func(FuncValidator<ValidatorResources>, FunctionBody<'a>),
    /// The end payload was validated and the types known to the validator
    /// are provided.
    End(Types),
}

/// What a [`ValidPayload`] holds.
pub enum ValidPayloadView {
    /// No further action need be taken.
    Valid,
    /// A nested module or component started.
    Parser(Parser),
    /// A function was found.
    Func(FuncView, Cursor),
    /// The end was validated.
    End(TypesView),
}

impl<'a> View for ValidPayload<'a> {
    type V = ValidPayloadView;

    open spec fn view(&self) -> ValidPayloadView {
        match self {
            ValidPayload::Valid => ValidPayloadView::Valid,
            ValidPayload::Parser(parser) => ValidPayloadView::Parser(*parser),
            ValidPayload::Func(validator, body) => ValidPayloadView::Func(validator@, body@),
            ValidPayload::End(types) => ValidPayloadView::End(types@),
        }
    }
}

impl ValidPayloadView {
    /// What the payload holds can be used.
    pub open spec fn wf(self) -> bool {
        match self {
            ValidPayloadView::Func(validator, body) => validator.wf() && body.wf(),
            ValidPayloadView::End(types) => types.wf(),
            _ => true,
        }
    }
}

/// Validates `n` items of a section of a module, from a place on.
pub open spec fn module_items<T: ModuleSection>(
    state: ModuleStateView,
    types: Seq<DefinedTypeView>,
    features: WasmFeatures,
    section: SectionView,
    n: nat,
) -> (ModuleStateView, Seq<DefinedTypeView>, Result<()>)
    decreases n,
{
    if n == 0 {
        (state, types, section.end())
    } else {
        match T::parse_item(section.forbid_bulk_memory, section.cursor) {
            (c, Err(e)) => (state, types, Err(e)),
            (c, Ok(item)) => match T::added(
                state,
                features,
                types,
                item,
                section.cursor.offset(),
            ) {
                (state, types, Err(e)) => (state, types, Err(e)),
                (state, types, Ok(_)) => module_items::<T>(
                    state,
                    types,
                    features,
                    section.at(c),
                    (n - 1) as nat,
                ),
            },
        }
    }
}

/// Validates `n` items of a section of a component, from a place on.
pub open spec fn component_items<T: ComponentSection>(
    outer: Seq<ComponentView>,
    current: ComponentView,
    types: Seq<DefinedTypeView>,
    features: WasmFeatures,
    section: SectionView,
    n: nat,
) -> (ComponentView, Seq<DefinedTypeView>, Result<()>)
    decreases n,
{
    if n == 0 {
        (current, types, section.end())
    } else {
        match T::parse_item(section.forbid_bulk_memory, section.cursor) {
            (c, Err(e)) => (current, types, Err(e)),
            (c, Ok(item)) => match T::added(
                outer,
                current,
                types,
                features,
                item,
                section.cursor.offset(),
            ) {
                (current, types, Err(e)) => (current, types, Err(e)),
                (current, types, Ok(_)) => component_items::<T>(
                    outer,
                    current,
                    types,
                    features,
                    section.at(c),
                    (n - 1) as nat,
                ),
            },
        }
    }
}

impl ValidatorView {
    /// A validator to which nothing has been passed.
    pub open spec fn initial(features: WasmFeatures) -> ValidatorView {
        ValidatorView {
            state: State::Unparsed(None),
            types: Seq::empty(),
            module: None,
            components: Seq::empty(),
            features,
        }
    }

    /// The invariant of a validator: there is a module exactly while one is being
    /// validated, there is a component while one is being validated or something
    /// in one is expected, and what all of them say of types is true.
    pub open spec fn wf(self) -> bool {
        &&& types_ok(self.types)
        &&& self.module is Some <==> self.state == State::Module
        &&& self.module matches Some(module) ==> module.wf(self.types)
        &&& stack_ok(self.components, self.types)
        &&& self.state == State::Component ==> self.components.len() > 0
        &&& self.state matches State::Unparsed(expected) ==> (expected is Some
            <==> self.components.len() > 0)
    }

    /// The validator with another module.
    pub open spec fn with_module(self, module: ModuleStateView) -> ValidatorView {
        ValidatorView { module: Some(module), ..self }
    }

    /// The validator with another current component.
    pub open spec fn with_current(self, current: ComponentView) -> ValidatorView {
        ValidatorView { components: around(self.components).push(current), ..self }
    }

    /// Validates a section of a module.
    pub open spec fn module_section<T: ModuleSection>(self, section: SectionView) -> (
        ValidatorView,
        Result<()>,
    ) {
        let offset = section.cursor.base;
        match self.state.module_state(T::name_of(), offset) {
            Err(e) => (self, Err(e)),
            Ok(_) => match self.module->0.update_order(T::order_of(), offset) {
                (state, Err(e)) => (self.with_module(state), Err(e)),
                (state, Ok(_)) => match T::counted(state, self.features, section.count, offset) {
                    (state, Err(e)) => (self.with_module(state), Err(e)),
                    (state, Ok(_)) => {
                        let (state, types, result) = module_items::<T>(
                            state,
                            self.types,
                            self.features,
                            section,
                            section.count as nat,
                        );
                        (ValidatorView { types, ..self.with_module(state) }, result)
                    },
                },
            },
        }
    }

    /// Validates a section of a component.
    pub open spec fn component_section<T: ComponentSection>(self, section: SectionView) -> (
        ValidatorView,
        Result<()>,
    ) {
        let offset = section.cursor.base;
        if !self.features.component_model {
            (self, Err(error_at("component model feature is not enabled", offset)))
        } else {
            match self.state.component_state(T::name_of(), offset) {
                Err(e) => (self, Err(e)),
                Ok(_) => match T::counted(self.components.last(), section.count, offset) {
                    Err(e) => (self, Err(e)),
                    Ok(_) => {
                        let (current, types, result) = component_items::<T>(
                            around(self.components),
                            self.components.last(),
                            self.types,
                            self.features,
                            section,
                            section.count as nat,
                        );
                        (ValidatorView { types, ..self.with_current(current) }, result)
                    },
                },
            }
        }
    }

    /// Validates the header.
    pub open spec fn version(self, num: u32, encoding: Encoding, range: Range) -> (
        ValidatorView,
        Result<()>,
    ) {
        let offset = range.start as int;
        match self.state {
            State::Unparsed(expected) => if expected is Some && expected->0 != encoding {
                (
                    self,
                    Err(
                        word_error_at(
                            "expected a version header for a ",
                            match expected->0 {
                                Encoding::Module => "module",
                                Encoding::Component => "component",
                            },
                            "",
                            offset,
                        ),
                    ),
                )
            } else if encoding == Encoding::Module && num == WASM_MODULE_VERSION {
                (
                    ValidatorView {
                        state: State::Module,
                        module: Some(ModuleStateView::initial()),
                        ..self
                    },
                    Ok(()),
                )
            } else if encoding == Encoding::Component && num == WASM_COMPONENT_VERSION {
                if !self.features.component_model {
                    (
                        self,
                        Err(error_at("WebAssembly component model feature not enabled", offset)),
                    )
                } else {
                    (
                        ValidatorView {
                            state: State::Component,
                            components: self.components.push(ComponentView::empty()),
                            ..self
                        },
                        Ok(()),
                    )
                }
            } else {
                (self, Err(error_at("unknown binary version", offset)))
            },
            _ => (self, Err(error_at("wasm version header out of order", offset))),
        }
    }

    /// Validates the tag section of a module.
    pub open spec fn tag_section(self, section: SectionView) -> (ValidatorView, Result<()>) {
        if !self.features.exceptions {
            (self, Err(error_at("exceptions proposal not enabled", section.cursor.base)))
        } else {
            self.module_section::<TagSectionReader>(section)
        }
    }

    /// Validates the data section of a module.
    pub open spec fn data_section(self, section: SectionView) -> (ValidatorView, Result<()>) {
        self.module_section::<DataSectionReader>(
            SectionView { forbid_bulk_memory: !self.features.bulk_memory, ..section },
        )
    }

    /// Validates the start section of a module.
    pub open spec fn start_section(self, func: u32, range: Range) -> (ValidatorView, Result<()>) {
        let offset = range.start as int;
        match self.state.module_state("start", offset) {
            Err(e) => (self, Err(e)),
            Ok(_) => match self.module->0.update_order(Order::Start, offset) {
                (state, Err(e)) => (self.with_module(state), Err(e)),
                (state, Ok(_)) => (
                    self.with_module(state),
                    match state.module.get_func_type(self.types, func, offset) {
                        Err(e) => Err(e),
                        Ok(ty) => if ty.params.len() > 0 || ty.returns.len() > 0 {
                            Err(error_at("invalid start function type", offset))
                        } else {
                            Ok(())
                        },
                    },
                ),
            },
        }
    }

    /// Validates the data count section of a module.
    pub open spec fn data_count_section(self, count: u32, range: Range) -> (
        ValidatorView,
        Result<()>,
    ) {
        let offset = range.start as int;
        match self.state.module_state("data count", offset) {
            Err(e) => (self, Err(e)),
            Ok(_) => match self.module->0.update_order(Order::DataCount, offset) {
                (state, Err(e)) => (self.with_module(state), Err(e)),
                (state, Ok(_)) => if count > MAX_WASM_DATA_SEGMENTS {
                    (
                        self.with_module(state),
                        Err(
                            error_at(
                                "data count section specifies too many data segments",
                                offset,
                            ),
                        ),
                    )
                } else {
                    (
                        self.with_module(
                            state.with(ModuleView { data_count: Some(count), ..state.module }),
                        ),
                        Ok(()),
                    )
                },
            },
        }
    }

    /// Why a code section with so many bodies is refused, if it is: there are as
    /// many bodies as functions, or none and no function section.
    pub open spec fn code_count(expected: Option<u32>, count: u32, offset: int) -> Result<()> {
        match expected {
            Some(n) => if n == count {
                Ok(())
            } else {
                Err(error_at("function and code section have inconsistent lengths", offset))
            },
            None => if count == 0 {
                Ok(())
            } else {
                Err(error_at("code section without function section", offset))
            },
        }
    }

    /// Validates the start of the code section of a module.
    pub open spec fn code_section_start(self, count: u32, range: Range) -> (
        ValidatorView,
        Result<()>,
    ) {
        let offset = range.start as int;
        match self.state.module_state("code", offset) {
            Err(e) => (self, Err(e)),
            Ok(_) => match self.module->0.update_order(Order::Code, offset) {
                (state, Err(e)) => (self.with_module(state), Err(e)),
                (state, Ok(_)) => {
                    let taken = ModuleStateView { expected_code_bodies: None, ..state };
                    match Self::code_count(state.expected_code_bodies, count, offset) {
                        Err(e) => (self.with_module(taken), Err(e)),
                        Ok(_) => (
                            self.with_module(
                                taken.with(
                                    ModuleView { snapshot: Some(self.types), ..taken.module },
                                ),
                            ),
                            Ok(()),
                        ),
                    }
                },
            },
        }
    }

    /// A function body can be validated where one has to come: the code section
    /// has started.
    pub open spec fn code_ready(self) -> bool {
        self.module matches Some(state) ==> state.next_code() >= state.module.functions.len()
            || state.module.snapshot is Some
    }

    /// Prepares the validation of a function body, which stands at an offset.
    pub open spec fn code_section_entry(self, offset: int) -> (ValidatorView, Result<FuncView>) {
        match self.state.module_state("code", offset) {
            Err(e) => (self, Err(e)),
            Ok(_) => match self.module->0.next_code_entry_type(offset) {
                (state, Err(e)) => (self.with_module(state), Err(e)),
                (state, Ok(ty)) => (
                    self.with_module(ModuleStateView { shared: true, ..state }),
                    FuncView::start(ty, 0, state.module, self.features),
                ),
            },
        }
    }

    /// Validates that a module can stand in the current component.
    pub open spec fn nested_module(self, range: Range) -> (ValidatorView, Result<()>) {
        let offset = range.start as int;
        match self.state.component_state("module", offset) {
            Err(e) => (self, Err(e)),
            Ok(_) => match max_check(
                self.components.last().modules.len() as int,
                1,
                MAX_WASM_MODULES,
                "modules",
                offset,
            ) {
                Err(e) => (self, Err(e)),
                Ok(_) => (
                    ValidatorView { state: State::Unparsed(Some(Encoding::Module)), ..self },
                    Ok(()),
                ),
            },
        }
    }

    /// Validates that a component can stand in the current component.
    pub open spec fn nested_component(self, range: Range) -> (ValidatorView, Result<()>) {
        let offset = range.start as int;
        match self.state.component_state("component", offset) {
            Err(e) => (self, Err(e)),
            Ok(_) => match max_check(
                self.components.last().components.len() as int,
                1,
                MAX_WASM_COMPONENTS,
                "components",
                offset,
            ) {
                Err(e) => (self, Err(e)),
                Ok(_) => (
                    ValidatorView { state: State::Unparsed(Some(Encoding::Component)), ..self },
                    Ok(()),
                ),
            },
        }
    }

    /// Validates the start section of a component.
    pub open spec fn component_start_section(self, section: Cursor) -> (ValidatorView, Result<()>) {
        let offset = section.base;
        match self.state.component_state("start", offset) {
            Err(e) => (self, Err(e)),
            Ok(_) => match <ComponentStartFunction as FromReader>::parse(section) {
                (_, Err(e)) => (self, Err(e)),
                (_, Ok(f)) => {
                    let (current, result) = self.components.last().add_start(
                        self.types,
                        f.func_index,
                        f.arguments,
                        offset,
                    );
                    (self.with_current(current), result)
                },
            },
        }
    }

    /// Validates the end of a module, which is added to the component that it is in.
    pub open spec fn end_module(self, offset: int) -> (ValidatorView, Result<TypesView>) {
        let state = self.module->0;
        let over = ValidatorView { state: State::End, module: None, ..self };
        match state.validate_end(offset) {
            Err(e) => (over, Err(e)),
            Ok(_) => if self.components.len() > 0 {
                match self.components.last().add_module(self.types, state.module, offset) {
                    (parent, types, Err(e)) => (
                        ValidatorView { types, ..over.with_current(parent) },
                        Err(e),
                    ),
                    (parent, types, Ok(_)) => (
                        ValidatorView {
                            state: State::Component,
                            types,
                            ..over.with_current(parent)
                        },
                        Ok(TypesView { types, kind: TypesKindView::Module(state.module) }),
                    ),
                }
            } else {
                (
                    over,
                    Ok(
                        TypesView {
                            types: self.types,
                            kind: TypesKindView::Module(state.module),
                        },
                    ),
                )
            },
        }
    }

    /// Validates the end of a component, which is added to the component that it is in.
    pub open spec fn end_component(self) -> (ValidatorView, TypesView) {
        let component = self.components.last();
        let over = ValidatorView {
            state: State::End,
            components: around(self.components),
            ..self
        };
        if over.components.len() > 0 {
            let (parent, types) = over.components.last().add_component(self.types, component);
            (
                ValidatorView { state: State::Component, types, ..over.with_current(parent) },
                TypesView {
                    types,
                    kind: TypesKindView::Component(
                        ComponentView {
                            imports: Seq::empty(),
                            exports: Seq::empty(),
                            ..component
                        },
                    ),
                },
            )
        } else {
            (over, TypesView { types: self.types, kind: TypesKindView::Component(component) })
        }
    }

    /// Validates the end. The component that what ends is in goes on.
    pub open spec fn end(self, offset: int) -> (ValidatorView, Result<TypesView>) {
        match self.state {
            State::Unparsed(_) => (
                ValidatorView { state: State::End, ..self },
                Err(error_at("cannot call `end` before a header has been parsed", offset)),
            ),
            State::End => (
                self,
                Err(error_at("cannot call `end` after parsing has completed", offset)),
            ),
            State::Module => self.end_module(offset),
            State::Component => {
                let (v, types) = self.end_component();
                (v, Ok(types))
            },
        }
    }

    /// Validates a section with items.
    pub open spec fn section(self, kind: SectionKind, s: SectionView) -> (
        ValidatorView,
        Result<()>,
    ) {
        match kind {
            SectionKind::Type => self.module_section::<TypeSectionReader>(s),
            SectionKind::Import => self.module_section::<ImportSectionReader>(s),
            SectionKind::Function => self.module_section::<FunctionSectionReader>(s),
            SectionKind::Table => self.module_section::<TableSectionReader>(s),
            SectionKind::Memory => self.module_section::<MemorySectionReader>(s),
            SectionKind::Tag => self.tag_section(s),
            SectionKind::Global => self.module_section::<GlobalSectionReader>(s),
            SectionKind::Export => self.module_section::<ExportSectionReader>(s),
            SectionKind::Element => self.module_section::<ElementSectionReader>(s),
            SectionKind::Data => self.data_section(s),
            SectionKind::ComponentType => self.component_section::<ComponentTypeSectionReader>(s),
            SectionKind::ComponentImport => self.component_section::<
                ComponentImportSectionReader,
            >(s),
            SectionKind::ComponentFunction => self.component_section::<
                ComponentFunctionSectionReader,
            >(s),
            SectionKind::Instance => self.component_section::<InstanceSectionReader>(s),
            SectionKind::ComponentExport => self.component_section::<
                ComponentExportSectionReader,
            >(s),
            SectionKind::Alias => self.component_section::<AliasSectionReader>(s),
        }
    }

    /// Validates a part of a binary.
    pub open spec fn payload(self, payload: PayloadView) -> (
        ValidatorView,
        Result<ValidPayloadView>,
    ) {
        match payload {
            PayloadView::CodeSectionEntry(body) => match self.code_section_entry(body.base) {
                (v, Err(e)) => (v, Err(e)),
                (v, Ok(func)) => (v, Ok(ValidPayloadView::Func(func, body))),
            },
            PayloadView::ModuleSection { parser, range } => match self.nested_module(range) {
                (v, Err(e)) => (v, Err(e)),
                (v, Ok(_)) => (v, Ok(ValidPayloadView::Parser(parser))),
            },
            PayloadView::ComponentSection { parser, range } => match self.nested_component(range) {
                (v, Err(e)) => (v, Err(e)),
                (v, Ok(_)) => (v, Ok(ValidPayloadView::Parser(parser))),
            },
            PayloadView::End(offset) => match self.end(offset as int) {
                (v, Err(e)) => (v, Err(e)),
                (v, Ok(types)) => (v, Ok(ValidPayloadView::End(types))),
            },
            _ => match self.part(payload) {
                (v, Err(e)) => (v, Err(e)),
                (v, Ok(_)) => (v, Ok(ValidPayloadView::Valid)),
            },
        }
    }

    /// Validates a part of a binary that asks for no further action.
    pub open spec fn part(self, payload: PayloadView) -> (ValidatorView, Result<()>) {
        match payload {
            PayloadView::Version { num, encoding, range } => self.version(num, encoding, range),
            PayloadView::Section(kind, section) => self.section(kind, section),
            PayloadView::StartSection { func, range } => self.start_section(func, range),
            PayloadView::DataCountSection { count, range } => self.data_count_section(
                count,
                range,
            ),
            PayloadView::CodeSectionStart { count, range, .. } => self.code_section_start(
                count,
                range,
            ),
            PayloadView::ComponentStartSection(section) => self.component_start_section(section),
            PayloadView::UnknownSection { id, range, .. } => (self, unknown(id, range)),
            _ => (self, Ok(())),
        }
    }
}

/// Validates the function bodies from the `i`th on.
pub open spec fn check_functions(functions: Seq<(FuncView, Cursor)>, i: int) -> Result<()>
    decreases functions.len() - i,
{
    if i < 0 || i >= functions.len() {
        Ok(())
    } else {
        match functions[i].0.validate(functions[i].1) {
            (_, Err(e)) => Err(e),
            (_, Ok(_)) => check_functions(functions, i + 1),
        }
    }
}

/// Which functions have been validated already does not matter.
proof fn lemma_check_same(a: Seq<(FuncView, Cursor)>, b: Seq<(FuncView, Cursor)>, i: int)
    requires
        a.len() == b.len(),
        forall|k: int| i <= k < a.len() ==> a[k] == #[trigger] b[k],
    ensures
        check_functions(a, i) == check_functions(b, i),
    decreases a.len() - i,
{
    if 0 <= i < a.len() {
        assert(a[i] == b[i]);
        lemma_check_same(a, b, i + 1);
    }
}

impl ValidatorView {
    /// Validates all parts of a binary that are still to come, and then the
    /// function bodies, those of `functions` first. The types are those of what
    /// ended last, which is `last` if nothing ends any more.
    pub open spec fn run(
        self,
        parts: ParseView,
        functions: Seq<(FuncView, Cursor)>,
        last: Option<TypesView>,
    ) -> (ValidatorView, Result<TypesView>)
        decreases parts.left(),
    {
        match parts.step() {
            (_, None) => (
                self,
                match check_functions(functions, 0) {
                    Err(e) => Err(e),
                    Ok(_) => Ok(last->0),
                },
            ),
            (_, Some(Err(e))) => (self, Err(e)),
            (rest, Some(Ok(payload))) => match self.payload(payload) {
                (v, Err(e)) => (v, Err(e)),
                (v, Ok(valid)) => if rest.left() < parts.left() {
                    v.run(
                        rest,
                        match valid {
                            ValidPayloadView::Func(func, body) => functions.push((func, body)),
                            _ => functions,
                        },
                        match valid {
                            ValidPayloadView::End(types) => Some(types),
                            _ => last,
                        },
                    )
                } else {
                    (v, Err(parts.window().end_of_file()))
                },
            },
        }
    }

    /// Validates a whole binary.
    pub open spec fn validate_all(self, bytes: Seq<u8>) -> (ValidatorView, Result<TypesView>) {
        self.run(ParseView::start(Parser::start(0, u64::MAX), bytes), Seq::empty(), None)
    }

    /// The code section of the module that is being validated has started.
    pub open spec fn in_code(self) -> bool {
        self.module matches Some(state) && state.module.snapshot is Some
    }
}

/// The error for a section that is not known.
pub open spec fn unknown(id: u8, range: Range) -> Result<()> {
    Err(number_error_at("malformed section id: ", id as int, "", range.start as int))
}

/// What the components of a stack say of types stays true when there are more types.
pub proof fn lemma_stack_longer(
    stack: Seq<ComponentView>,
    start: Seq<DefinedTypeView>,
    types: Seq<DefinedTypeView>,
)
    requires
        stack_ok(stack, start),
        starts_with(types, start),
    ensures
        stack_ok(stack, types),
{
    assert forall|i: int| 0 <= i < stack.len() implies (#[trigger] stack[i]).wf(types) by {
        lemma_component_longer(stack[i], start, types);
    }
}

impl Default for Validator {
    fn default() -> (validator: Validator)
        ensures
            validator@ == ValidatorView::initial(default_features()),
            validator@.wf(),
    {
        let validator = Validator {
            state: State::default(),
            types: TypeList::new(),
            module: None,
            components: Vec::new(),
            features: WasmFeatures::default(),
        };
        assert(validator@ =~= ValidatorView::initial(default_features()));
        validator
    }
}

impl Validator {
    /// Creates a new [`Validator`] ready to validate a WebAssembly module
    /// or component.
    ///
    /// The new validator will receive payloads parsed from
    /// [`Parser`], and expects the first payload received to be
    /// the version header from the parser.
    pub fn new() -> (validator: Validator)
        ensures
            validator@ == ValidatorView::initial(default_features()),
            validator@.wf(),
    {
        Validator::default()
    }

    /// Creates a new [`Validator`] which has the specified set of wasm
    /// features activated for validation.
    ///
    /// This function is the same as [`Validator::new`] except it also allows
    /// you to customize the active wasm features in use for validation. This
    /// can allow enabling experimental proposals or also turning off
    /// on-by-default wasm proposals.
    pub fn new_with_features(features: WasmFeatures) -> (validator: Validator)
        ensures
            validator@ == ValidatorView::initial(features),
            validator@.wf(),
    {
        let mut validator = Validator::new();
        validator.features = features;
        validator
    }

    /// Returns the wasm features used for this validator.
    pub fn features(&self) -> (features: &WasmFeatures)
        ensures
            *features == self@.features,
    {
        &self.features
    }

    fn ensure_module_section<T: ModuleSection>(&mut self, section: &T) -> (result: Result<()>)
        requires
            old(self)@.wf(),
            section.section().cursor.wf(),
        ensures
            final(self)@.wf(),
            (final(self)@, result) == old(self)@.module_section::<T>(section.section()),
    {
        let offset = section.range().start;
        self.state.ensure_module_state(T::name(), offset)?;
        let count = section.get_count();
        {
            let state = self.module.as_mut().unwrap();
            state.update_order(T::order(), offset)?;
            T::count(state, &self.features, &mut self.types, count, offset)?;
        }
        let mut reader = *section;
        let mut left = count;
        let ghost whole = module_items::<T>(
            self@.module->0,
            self@.types,
            self@.features,
            reader.section(),
            count as nat,
        );
        while left > 0
            invariant
                self@.wf(),
                self@.state == State::Module,
                self@.state == old(self)@.state,
                self@.features == old(self)@.features,
                self@.components == old(self)@.components,
                self@.module->0.order == T::order_of(),
                reader.section().cursor.wf(),
                whole == module_items::<T>(
                    self@.module->0,
                    self@.types,
                    self@.features,
                    reader.section(),
                    left as nat,
                ),
                ({
                    let (state, types, result) = whole;
                    old(self)@.module_section::<T>(section.section()) == (
                        ValidatorView { types, ..old(self)@.with_module(state) },
                        result,
                    )
                }),
            decreases left,
        {
            let ghost before = self@;
            let offset = reader.original_position();
            let item = reader.read()?;
            let state = self.module.as_mut().unwrap();
            let result = T::add(state, &self.features, &mut self.types, item, offset);
            proof {
                lemma_stack_longer(self@.components, before.types, self@.types);
            }
            result?;
            left = left - 1;
        }
        reader.ensure_end()
    }

    fn ensure_component_section<T: ComponentSection>(&mut self, section: &T) -> (result: Result<()>)
        requires
            old(self)@.wf(),
            section.section().cursor.wf(),
        ensures
            final(self)@.wf(),
            (final(self)@, result) == old(self)@.component_section::<T>(section.section()),
    {
        let offset = section.range().start;
        if !self.features.component_model {
            return Err(BinaryReaderError::new("component model feature is not enabled", offset));
        }
        self.state.ensure_component_state(T::name(), offset)?;
        let count = section.get_count();
        T::count(&mut self.components, &mut self.types, count, offset)?;
        assert(self@ =~= old(self)@);
        let mut reader = *section;
        let mut left = count;
        let ghost outer = around(self@.components);
        let ghost whole = component_items::<T>(
            outer,
            self@.components.last(),
            self@.types,
            self@.features,
            reader.section(),
            count as nat,
        );
        assert(self@.components =~= outer.push(self@.components.last()));
        while left > 0
            invariant
                self@.wf(),
                self@.state == State::Component,
                self@.state == old(self)@.state,
                self@.features == old(self)@.features,
                self@.module == old(self)@.module,
                outer == around(old(self)@.components),
                self@.components == outer.push(self@.components.last()),
                reader.section().cursor.wf(),
                whole == component_items::<T>(
                    outer,
                    self@.components.last(),
                    self@.types,
                    self@.features,
                    reader.section(),
                    left as nat,
                ),
                ({
                    let (current, types, result) = whole;
                    old(self)@.component_section::<T>(section.section()) == (
                        ValidatorView { types, ..old(self)@.with_current(current) },
                        result,
                    )
                }),
            decreases left,
        {
            let offset = reader.original_position();
            let item = reader.read()?;
            assert(around(self@.components) =~= outer);
            T::add(&mut self.components, &mut self.types, &self.features, item, offset)?;
            left = left - 1;
        }
        reader.ensure_end()
    }

    /// Validates [`Payload::Version`].
    pub fn version(&mut self, num: u32, encoding: Encoding, range: &Range) -> (result: Result<()>)
        requires
            old(self)@.wf(),
        ensures
            final(self)@.wf(),
            (final(self)@, result) == old(self)@.version(num, encoding, *range),
    {
        match self.state {
            State::Unparsed(expected) => {
                if let Some(expected) = expected {
                    if expected != encoding {
                        return Err(
                            BinaryReaderError::with_word(
                                "expected a version header for a ",
                                match expected {
                                    Encoding::Module => "module",
                                    Encoding::Component => "component",
                                },
                                "",
                                range.start,
                            ),
                        );
                    }
                }
            },
            _ => {
                return Err(
                    BinaryReaderError::new("wasm version header out of order", range.start),
                );
            },
        }
        match encoding {
            Encoding::Module => {
                if num != WASM_MODULE_VERSION {
                    return Err(BinaryReaderError::new("unknown binary version", range.start));
                }
                self.module = Some(ModuleState::new());
                self.state = State::Module;
            },
            Encoding::Component => {
                if num != WASM_COMPONENT_VERSION {
                    return Err(BinaryReaderError::new("unknown binary version", range.start));
                }
                if !self.features.component_model {
                    return Err(
                        BinaryReaderError::new(
                            "WebAssembly component model feature not enabled",
                            range.start,
                        ),
                    );
                }
                self.components.push(ComponentState::new());
                self.state = State::Component;
                assert(self@.components =~= old(self)@.components.push(ComponentView::empty()));
            },
        }
        Ok(())
    }

    /// Validates [`Payload::TypeSection`].
    ///
    /// This method should only be called when parsing a module.
    pub fn type_section(&mut self, section: &TypeSectionReader<'_>) -> (result: Result<()>)
        requires
            old(self)@.wf(),
            section@.cursor.wf(),
        ensures
            final(self)@.wf(),
            (final(self)@, result) == old(self)@.module_section::<TypeSectionReader>(section@),
    {
        self.ensure_module_section(section)
    }

    /// Validates [`Payload::ImportSection`].
    ///
    /// This method should only be called when parsing a module.
    pub fn import_section(&mut self, section: &ImportSectionReader<'_>) -> (result: Result<()>)
        requires
            old(self)@.wf(),
            section@.cursor.wf(),
        ensures
            final(self)@.wf(),
            (final(self)@, result) == old(self)@.module_section::<ImportSectionReader>(section@),
    {
        self.ensure_module_section(section)
    }

    /// Validates [`Payload::FunctionSection`].
    ///
    /// This method should only be called when parsing a module.
    pub fn function_section(&mut self, section: &FunctionSectionReader<'_>) -> (result: Result<()>)
        requires
            old(self)@.wf(),
            section@.cursor.wf(),
        ensures
            final(self)@.wf(),
            (final(self)@, result) == old(self)@.module_section::<FunctionSectionReader>(section@),
    {
        self.ensure_module_section(section)
    }

    /// Validates [`Payload::TableSection`].
    ///
    /// This method should only be called when parsing a module.
    pub fn table_section(&mut self, section: &TableSectionReader<'_>) -> (result: Result<()>)
        requires
            old(self)@.wf(),
            section@.cursor.wf(),
        ensures
            final(self)@.wf(),
            (final(self)@, result) == old(self)@.module_section::<TableSectionReader>(section@),
    {
        self.ensure_module_section(section)
    }

    /// Validates [`Payload::MemorySection`].
    ///
    /// This method should only be called when parsing a module.
    pub fn memory_section(&mut self, section: &MemorySectionReader<'_>) -> (result: Result<()>)
        requires
            old(self)@.wf(),
            section@.cursor.wf(),
        ensures
            final(self)@.wf(),
            (final(self)@, result) == old(self)@.module_section::<MemorySectionReader>(section@),
    {
        self.ensure_module_section(section)
    }

    /// Validates [`Payload::TagSection`].
    ///
    /// This method should only be called when parsing a module.
    pub fn tag_section(&mut self, section: &TagSectionReader<'_>) -> (result: Result<()>)
        requires
            old(self)@.wf(),
            section@.cursor.wf(),
        ensures
            final(self)@.wf(),
            (final(self)@, result) == old(self)@.tag_section(section@),
    {
        if !self.features.exceptions {
            return Err(
                BinaryReaderError::new("exceptions proposal not enabled", section.range().start),
            );
        }
        self.ensure_module_section(section)
    }

    /// Validates [`Payload::GlobalSection`].
    ///
    /// This method should only be called when parsing a module.
    pub fn global_section(&mut self, section: &GlobalSectionReader<'_>) -> (result: Result<()>)
        requires
            old(self)@.wf(),
            section@.cursor.wf(),
        ensures
            final(self)@.wf(),
            (final(self)@, result) == old(self)@.module_section::<GlobalSectionReader>(section@),
    {
        self.ensure_module_section(section)
    }

    /// Validates [`Payload::ExportSection`].
    ///
    /// This method should only be called when parsing a module.
    pub fn export_section(&mut self, section: &ExportSectionReader<'_>) -> (result: Result<()>)
        requires
            old(self)@.wf(),
            section@.cursor.wf(),
        ensures
            final(self)@.wf(),
            (final(self)@, result) == old(self)@.module_section::<ExportSectionReader>(section@),
    {
        self.ensure_module_section(section)
    }

    /// Validates [`Payload::StartSection`].
    ///
    /// This method should only be called when parsing a module.
    pub fn start_section(&mut self, func: u32, range: &Range) -> (result: Result<()>)
        requires
            old(self)@.wf(),
        ensures
            final(self)@.wf(),
            (final(self)@, result) == old(self)@.start_section(func, *range),
    {
        let offset = range.start;
        self.state.ensure_module_state("start", offset)?;
        let state = self.module.as_mut().unwrap();
        state.update_order(Order::Start, offset)?;
        let ty = state.module.get().get_func_type(func, &self.types, offset)?;
        if ty.params.len() > 0 || ty.returns.len() > 0 {
            return Err(BinaryReaderError::new("invalid start function type", offset));
        }
        Ok(())
    }

    /// Validates [`Payload::ElementSection`].
    ///
    /// This method should only be called when parsing a module.
    pub fn element_section(&mut self, section: &ElementSectionReader<'_>) -> (result: Result<()>)
        requires
            old(self)@.wf(),
            section@.cursor.wf(),
        ensures
            final(self)@.wf(),
            (final(self)@, result) == old(self)@.module_section::<ElementSectionReader>(section@),
    {
        self.ensure_module_section(section)
    }

    /// Validates [`Payload::DataCountSection`].
    ///
    /// This method should only be called when parsing a module.
    pub fn data_count_section(&mut self, count: u32, range: &Range) -> (result: Result<()>)
        requires
            old(self)@.wf(),
        ensures
            final(self)@.wf(),
            (final(self)@, result) == old(self)@.data_count_section(count, *range),
    {
        let offset = range.start;
        self.state.ensure_module_state("data count", offset)?;
        let state = self.module.as_mut().unwrap();
        state.update_order(Order::DataCount, offset)?;
        if count > MAX_WASM_DATA_SEGMENTS as u32 {
            return Err(
                BinaryReaderError::new(
                    "data count section specifies too many data segments",
                    offset,
                ),
            );
        }
        state.module.assert_mut().data_count = Some(count);
        Ok(())
    }

    /// Validates [`Payload::CodeSectionStart`].
    ///
    /// This method should only be called when parsing a module.
    pub fn code_section_start(&mut self, count: u32, range: &Range) -> (result: Result<()>)
        requires
            old(self)@.wf(),
        ensures
            final(self)@.wf(),
            (final(self)@, result) == old(self)@.code_section_start(count, *range),
    {
        let offset = range.start;
        self.state.ensure_module_state("code", offset)?;
        let state = self.module.as_mut().unwrap();
        state.update_order(Order::Code, offset)?;
        match state.expected_code_bodies.take() {
            Some(n) => if n != count {
                return Err(
                    BinaryReaderError::new(
                        "function and code section have inconsistent lengths",
                        offset,
                    ),
                );
            },
            // empty code sections are allowed even if the function section is
            // missing
            None => if count != 0 {
                return Err(BinaryReaderError::new("code section without function section", offset));
            },
        }
        // Take a snapshot of the types when we start the code section.
        state.module.assert_mut().snapshot = Some(self.types.commit());
        Ok(())
    }

    /// Validates [`Payload::CodeSectionEntry`].
    ///
    /// This function will prepare a [`FuncValidator`] which can be used to
    /// validate the function.
    ///
    /// Note that the returned [`FuncValidator`] is "connected" to this
    /// [`Validator`] in that it uses the internal context of this validator for
    /// validating the function.
    ///
    /// This method should only be called when parsing a module, and where a
    /// function body is expected the code section has to have started.
    pub fn code_section_entry(&mut self, body: &FunctionBody<'_>) -> (result: Result<
        FuncValidator<ValidatorResources>,
    >)
        requires
            old(self)@.wf(),
            old(self)@.code_ready(),
            body@.wf(),
        ensures
            final(self)@.wf(),
            (final(self)@, viewed(result)) == old(self)@.code_section_entry(body@.base),
            result is Ok <==> (old(self)@.module matches Some(state) && state.next_code()
                < state.module.functions.len()),
            result matches Ok(func) ==> func@.wf(),
    {
        let offset = body.range().start;
        self.state.ensure_module_state("code", offset)?;
        let state = self.module.as_mut().unwrap();
        let ty = state.next_code_entry_type(offset)?;
        let resources = ValidatorResources(state.module.arc());
        FuncValidator::new(ty, 0, resources, &self.features)
    }

    /// Validates [`Payload::DataSection`].
    ///
    /// This method should only be called when parsing a module.
    pub fn data_section(&mut self, section: &DataSectionReader<'_>) -> (result: Result<()>)
        requires
            old(self)@.wf(),
            section@.cursor.wf(),
        ensures
            final(self)@.wf(),
            (final(self)@, result) == old(self)@.data_section(section@),
    {
        let mut section = *section;
        section.forbid_bulk_memory(!self.features.bulk_memory);
        self.ensure_module_section(&section)
    }

    /// Validates [`Payload::ComponentTypeSection`].
    ///
    /// This method should only be called when parsing a component.
    pub fn component_type_section(&mut self, section: &ComponentTypeSectionReader<'_>) -> (result:
        Result<()>)
        requires
            old(self)@.wf(),
            section@.cursor.wf(),
        ensures
            final(self)@.wf(),
            (final(self)@, result) == old(self)@.component_section::<
                ComponentTypeSectionReader,
            >(section@),
    {
        self.ensure_component_section(section)
    }

    /// Validates [`Payload::ComponentImportSection`].
    ///
    /// This method should only be called when parsing a component.
    pub fn component_import_section(&mut self, section: &ComponentImportSectionReader<'_>) -> (result:
        Result<()>)
        requires
            old(self)@.wf(),
            section@.cursor.wf(),
        ensures
            final(self)@.wf(),
            (final(self)@, result) == old(self)@.component_section::<
                ComponentImportSectionReader,
            >(section@),
    {
        self.ensure_component_section(section)
    }

    /// Validates [`Payload::ComponentFunctionSection`].
    ///
    /// This method should only be called when parsing a component.
    pub fn component_function_section(&mut self, section: &ComponentFunctionSectionReader<'_>) -> (result:
        Result<()>)
        requires
            old(self)@.wf(),
            section@.cursor.wf(),
        ensures
            final(self)@.wf(),
            (final(self)@, result) == old(self)@.component_section::<
                ComponentFunctionSectionReader,
            >(section@),
    {
        self.ensure_component_section(section)
    }

    /// Validates [`Payload::ModuleSection`].
    ///
    /// This method should only be called when parsing a component.
    pub fn module_section(&mut self, range: &Range) -> (result: Result<()>)
        requires
            old(self)@.wf(),
        ensures
            final(self)@.wf(),
            (final(self)@, result) == old(self)@.nested_module(*range),
    {
        self.state.ensure_component_state("module", range.start)?;
        let current = &self.components[self.components.len() - 1];
        check_max(current.modules.len(), 1, MAX_WASM_MODULES, "modules", range.start)?;
        self.state = State::Unparsed(Some(Encoding::Module));
        Ok(())
    }

    /// Validates [`Payload::ComponentSection`].
    ///
    /// This method should only be called when parsing a component.
    pub fn component_section(&mut self, range: &Range) -> (result: Result<()>)
        requires
            old(self)@.wf(),
        ensures
            final(self)@.wf(),
            (final(self)@, result) == old(self)@.nested_component(*range),
    {
        self.state.ensure_component_state("component", range.start)?;
        let current = &self.components[self.components.len() - 1];
        check_max(current.components.len(), 1, MAX_WASM_COMPONENTS, "components", range.start)?;
        self.state = State::Unparsed(Some(Encoding::Component));
        Ok(())
    }

    /// Validates [`Payload::InstanceSection`].
    ///
    /// This method should only be called when parsing a component.
    pub fn instance_section(&mut self, section: &InstanceSectionReader<'_>) -> (result: Result<()>)
        requires
            old(self)@.wf(),
            section@.cursor.wf(),
        ensures
            final(self)@.wf(),
            (final(self)@, result) == old(self)@.component_section::<
                InstanceSectionReader,
            >(section@),
    {
        self.ensure_component_section(section)
    }

    /// Validates [`Payload::ComponentExportSection`].
    ///
    /// This method should only be called when parsing a component.
    pub fn component_export_section(&mut self, section: &ComponentExportSectionReader<'_>) -> (result:
        Result<()>)
        requires
            old(self)@.wf(),
            section@.cursor.wf(),
        ensures
            final(self)@.wf(),
            (final(self)@, result) == old(self)@.component_section::<
                ComponentExportSectionReader,
            >(section@),
    {
        self.ensure_component_section(section)
    }

    /// Validates [`Payload::ComponentStartSection`].
    ///
    /// This method should only be called when parsing a component.
    pub fn component_start_section(&mut self, section: &ComponentStartSectionReader<'_>) -> (result:
        Result<()>)
        requires
            old(self)@.wf(),
            section@.wf(),
        ensures
            final(self)@.wf(),
            (final(self)@, result) == old(self)@.component_start_section(section@),
    {
        let range = section.range();
        self.state.ensure_component_state("start", range.start)?;
        let mut reader = *section;
        let f = reader.read()?;
        let ghost stack = self@.components;
        assert(stack.last() == self.components@.last()@);
        let current = self.components.last_mut().unwrap();
        let result = current.add_start(f.func_index, &f.arguments, &self.types, range.start);
        proof {
            lemma_stack(stack, self@.types, self.components@.last()@, self@.types);
            assert(self@.components =~= around(stack).push(self.components@.last()@));
        }
        result
    }

    /// Validates [`Payload::AliasSection`].
    ///
    /// This method should only be called when parsing a component.
    pub fn alias_section(&mut self, section: &AliasSectionReader<'_>) -> (result: Result<()>)
        requires
            old(self)@.wf(),
            section@.cursor.wf(),
        ensures
            final(self)@.wf(),
            (final(self)@, result) == old(self)@.component_section::<
                AliasSectionReader,
            >(section@),
    {
        self.ensure_component_section(section)
    }

    /// Validates [`Payload::UnknownSection`].
    ///
    /// Currently always returns an error.
    pub fn unknown_section(&mut self, id: u8, range: &Range) -> (result: Result<()>)
        ensures
            final(self)@ == old(self)@,
            result == unknown(id, *range),
    {
        Err(
            BinaryReaderError::with_number("malformed section id: ", id as u64, "", range.start),
        )
    }

    /// Validates [`Payload::End`].
    ///
    /// Returns the types known to the validator for the module or component.
    pub fn end(&mut self, offset: usize) -> (result: Result<Types>)
        requires
            old(self)@.wf(),
        ensures
            final(self)@.wf(),
            (final(self)@, viewed(result)) == old(self)@.end(offset as int),
            result matches Ok(types) ==> types@.wf(),
    {
        match self.state {
            State::Unparsed(_) => {
                self.state = State::End;
                Err(
                    BinaryReaderError::new(
                        "cannot call `end` before a header has been parsed",
                        offset,
                    ),
                )
            },
            State::End => Err(
                BinaryReaderError::new("cannot call `end` after parsing has completed", offset),
            ),
            State::Module => self.end_module(offset),
            State::Component => Ok(self.end_component()),
        }
    }

    fn end_module(&mut self, offset: usize) -> (result: Result<Types>)
        requires
            old(self)@.wf(),
            old(self)@.state == State::Module,
        ensures
            final(self)@.wf(),
            (final(self)@, viewed(result)) == old(self)@.end_module(offset as int),
            result matches Ok(types) ==> types@.wf(),
    {
        let ghost stack = self@.components;
        let ghost before = self@.types;
        self.state = State::End;
        let mut state = self.module.take().unwrap();
        state.validate_end(offset)?;
        // If there's a parent component, we'll add a module to the parent state
        // and continue to validate the component
        if self.components.len() > 0 {
            assert(stack.last() == self.components@.last()@);
            let parent = self.components.last_mut().unwrap();
            let result = parent.add_module(state.module.get(), &mut self.types, offset);
            proof {
                lemma_stack(stack, before, self.components@.last()@, self@.types);
                assert(self@.components =~= around(stack).push(self.components@.last()@));
                state@.module.lemma_longer(before, self@.types);
            }
            result?;
            self.state = State::Component;
        }
        Ok(Types::from_module(self.types.commit(), state.module.arc()))
    }

    fn end_component(&mut self) -> (types: Types)
        requires
            old(self)@.wf(),
            old(self)@.state == State::Component,
        ensures
            final(self)@.wf(),
            (final(self)@, types@) == old(self)@.end_component(),
            types@.wf(),
    {
        let ghost stack = self@.components;
        let ghost before = self@.types;
        self.state = State::End;
        let mut component = self.components.pop().unwrap();
        assert(component@ == stack.last());
        assert(self@.components =~= around(stack));
        // If there's a parent component, add it to the parent,
        // and continue to validate the component
        if self.components.len() > 0 {
            let ghost rest = self@.components;
            assert(rest.last() == self.components@.last()@);
            let parent = self.components.last_mut().unwrap();
            parent.add_component(&mut component, &mut self.types);
            proof {
                lemma_stack(rest, before, self.components@.last()@, self@.types);
                assert(self@.components =~= around(rest).push(self.components@.last()@));
                lemma_component_longer(component@, before, self@.types);
            }
            self.state = State::Component;
        }
        Types::from_component(self.types.commit(), component)
    }

    /// Convenience function to validate a single [`Payload`].
    ///
    /// This function is intended to be used as a convenience. It will
    /// internally perform any validation necessary to validate the [`Payload`]
    /// provided. The convenience part is that you're likely already going to
    /// be matching on [`Payload`] in your application, at which point it's more
    /// appropriate to call the individual methods on [`Validator`] per-variant
    /// in [`Payload`], such as [`Validator::type_section`].
    ///
    /// This function returns a [`ValidPayload`] variant on success, indicating
    /// one of a few possible actions that need to be taken after a payload is
    /// validated. For example function contents are not validated here, they're
    /// returned through [`ValidPayload`] for validation by the caller.
    pub fn payload<'a>(&mut self, payload: &Payload<'a>) -> (result: Result<ValidPayload<'a>>)
        requires
            old(self)@.wf(),
            payload@.wf(),
            payload@ is CodeSectionEntry ==> old(self)@.code_ready(),
        ensures
            final(self)@.wf(),
            (final(self)@, viewed(result)) == old(self)@.payload(payload@),
            result matches Ok(valid) ==> valid@.wf(),
    {
        match payload {
            Payload::CodeSectionEntry(body) => {
                let func_validator = self.code_section_entry(body)?;
                Ok(ValidPayload::Func(func_validator, *body))
            },
            Payload::ModuleSection { parser, range } => {
                self.module_section(range)?;
                Ok(ValidPayload::Parser(*parser))
            },
            Payload::ComponentSection { parser, range } => {
                self.component_section(range)?;
                Ok(ValidPayload::Parser(*parser))
            },
            Payload::End(offset) => Ok(ValidPayload::End(self.end(*offset)?)),
            _ => {
                self.part(payload)?;
                Ok(ValidPayload::Valid)
            },
        }
    }

    fn part(&mut self, payload: &Payload<'_>) -> (result: Result<()>)
        requires
            old(self)@.wf(),
            payload@.wf(),
        ensures
            final(self)@.wf(),
            (final(self)@, result) == old(self)@.part(payload@),
    {
        match payload {
            Payload::Version { num, encoding, range } => self.version(*num, *encoding, range),
            // Module sections
            Payload::TypeSection(s) => self.type_section(s),
            Payload::ImportSection(s) => self.import_section(s),
            Payload::FunctionSection(s) => self.function_section(s),
            Payload::TableSection(s) => self.table_section(s),
            Payload::MemorySection(s) => self.memory_section(s),
            Payload::TagSection(s) => self.tag_section(s),
            Payload::GlobalSection(s) => self.global_section(s),
            Payload::ExportSection(s) => self.export_section(s),
            Payload::StartSection { func, range } => self.start_section(*func, range),
            Payload::ElementSection(s) => self.element_section(s),
            Payload::DataCountSection { count, range } => self.data_count_section(*count, range),
            Payload::CodeSectionStart { count, range, size: _ } => self.code_section_start(
                *count,
                range,
            ),
            Payload::DataSection(s) => self.data_section(s),
            // Component sections
            Payload::ComponentTypeSection(s) => self.component_type_section(s),
            Payload::ComponentImportSection(s) => self.component_import_section(s),
            Payload::ComponentFunctionSection(s) => self.component_function_section(s),
            Payload::InstanceSection(s) => self.instance_section(s),
            Payload::ComponentExportSection(s) => self.component_export_section(s),
            Payload::ComponentStartSection(s) => self.component_start_section(s),
            Payload::AliasSection(s) => self.alias_section(s),
            Payload::UnknownSection { id, range, .. } => self.unknown_section(*id, range),
            // no validation for custom sections
            _ => Ok(()),
        }
    }

    /// Validates an entire in-memory module or component with this validator.
    ///
    /// This function will internally create a [`Parser`] to parse the `bytes`
    /// provided. The entire module or component specified by `bytes` will be
    /// parsed and validated.
    ///
    /// Upon success, the type information for the top-level module or component
    /// will be returned.
    pub fn validate_all(&mut self, bytes: &[u8]) -> (result: Result<Types>)
        requires
            old(self)@.wf(),
        ensures
            final(self)@.wf(),
            (final(self)@, viewed(result)) == old(self)@.validate_all(bytes@),
            result matches Ok(types) ==> types@.wf(),
            old(self)@.state == State::Unparsed(None) ==> (result matches Ok(types) ==> {
                &&& final(self)@.state == State::End
                &&& types@.types == final(self)@.types
            }),
    {
        let mut functions_to_validate: Vec<(FuncValidator<ValidatorResources>, FunctionBody<'_>)> =
            Vec::new();
        let mut last_types: Option<Types> = None;
        assert(bytes@.len() == bytes.len());
        let mut parts = Parser::new(0).parse_all(bytes);
        assert(func_views(functions_to_validate@) =~= Seq::<(FuncView, Cursor)>::empty());
        loop
            invariant
                self@.wf(),
                parts@.wf(),
                parts@.current.state is FunctionBody ==> self@.in_code(),
                last_types matches Some(types) ==> types@.wf(),
                parts@.done ==> last_types is Some,
                old(self)@.state == State::Unparsed(None) ==> in_step(self@, parts@) && (parts@.done
                    ==> last_types->0@.types == self@.types),
                forall|i: int|
                    0 <= i < functions_to_validate@.len() ==> {
                        &&& (#[trigger] functions_to_validate@[i]).0@.wf()
                        &&& functions_to_validate@[i].1@.wf()
                    },
                old(self)@.validate_all(bytes@) == self@.run(
                    parts@,
                    func_views(functions_to_validate@),
                    types_view(last_types),
                ),
            ensures
                parts@.done,
                parts@.step().1 is None,
                last_types is Some,
            decreases parts@.left(),
        {
            proof {
                parts@.current.lemma_states(parts@.window());
                if in_step(self@, parts@) {
                    law_stays_in_step(self@, parts@);
                }
            }
            let payload = match parts.next() {
                Some(payload) => payload?,
                None => break,
            };
            match self.payload(&payload)? {
                ValidPayload::Func(a, b) => {
                    let ghost before = func_views(functions_to_validate@);
                    functions_to_validate.push((a, b));
                    assert(func_views(functions_to_validate@) =~= before.push((a@, b@)));
                },
                ValidPayload::End(types) => {
                    // Only the last (top-level) type information will be returned
                    last_types = Some(types);
                },
                _ => {},
            }
        }
        let mut i: usize = 0;
        while i < functions_to_validate.len()
            invariant
                self@.wf(),
                i <= functions_to_validate@.len(),
                last_types is Some,
                last_types matches Some(types) ==> types@.wf(),
                old(self)@.state == State::Unparsed(None) ==> self@.state == State::End
                    && last_types->0@.types == self@.types,
                forall|k: int|
                    i <= k < functions_to_validate@.len() ==> {
                        &&& (#[trigger] functions_to_validate@[k]).0@.wf()
                        &&& functions_to_validate@[k].1@.wf()
                    },
                old(self)@.validate_all(bytes@) == (
                    self@,
                    match check_functions(func_views(functions_to_validate@), i as int) {
                        Err(e) => Err::<TypesView, BinaryReaderError>(e),
                        Ok(_) => Ok(last_types->0@),
                    },
                ),
            decreases functions_to_validate@.len() - i,
        {
            let body = functions_to_validate[i].1;
            let ghost before = func_views(functions_to_validate@);
            functions_to_validate[i].0.validate(&body)?;
            proof {
                lemma_check_same(before, func_views(functions_to_validate@), i + 1);
            }
            i = i + 1;
        }
        Ok(last_types.unwrap())
    }
}

/// What the validators of function bodies, and the bodies, hold.
pub open spec fn func_views(
    functions: Seq<(FuncValidator<ValidatorResources>, FunctionBody<'_>)>,
) -> Seq<(FuncView, Cursor)> {
    Seq::new(functions.len(), |i: int| (functions[i].0@, functions[i].1@))
}

/// What optional types hold.
pub open spec fn types_view(types: Option<Types>) -> Option<TypesView> {
    match types {
        Some(types) => Some(types@),
        None => None,
    }
}

/// Test whether the given buffer contains a valid WebAssembly module or component,
/// analogous to [`WebAssembly.validate`][js] in the JS API.
///
/// This functions requires the bytes to validate are entirely resident in memory.
/// Additionally this validates the given bytes with the default set of WebAssembly
/// features.
///
/// For more fine-tuned control over validation it's recommended to review the
/// documentation of [`Validator`].
///
/// Upon success, the type information for the top-level module or component will
/// be returned.
///
/// [js]: https://developer.mozilla.org/en-US/docs/Web/JavaScript/Reference/Global_Objects/WebAssembly/validate
pub fn validate(bytes: &[u8]) -> (result: Result<Types>)
    ensures
        viewed(result) == ValidatorView::initial(default_features()).validate_all(bytes@).1,
        result matches Ok(types) ==> types@.wf(),
{
    Validator::new().validate_all(bytes)
}

} // verus!
